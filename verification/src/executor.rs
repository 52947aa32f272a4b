//! Infrastructure for variable kinds of execution modes (including
//! mocking for testing).

use vstd::prelude::*;
use crate::iptables::AnyAction;
use crate::shell_quote::{shell_quote_many, shell_quoted_line};
use crate::text::{signed_decimal, signed_decimal_string, texts};

verus! {

/// How a command ended.
#[derive(Debug, Clone, PartialEq, Eq)]
pub enum ExecutorStatus {
    Success,
    ExitCode(i32),
    Signal(i32),
    /// The command could not be started; the text says why.
    ExecFailure(String),
}

/// What running one command gave: its status and what it printed.
pub struct ExecutorResult<'t> {
    pub cmd: &'t [String],
    pub status: ExecutorStatus,
    pub combined_output: String,
}

/// A command that did not succeed, described for a human reader.
#[derive(Debug, Clone, PartialEq, Eq)]
pub struct CommandError {
    pub message: String,
}

impl CommandError {
    pub fn to_string(&self) -> (s: String)
        ensures
            s@ == self.message@,
    {
        self.message.clone()
    }
}

/// The remark that follows the status in a failure message: a space and the
/// remark, or nothing.
pub open spec fn remark(msg: Option<Seq<char>>) -> Seq<char> {
    match msg {
        Some(m) => seq![' '] + m,
        None => Seq::empty(),
    }
}

/// The message that describes the failure of the command `cmd`, or `None`
/// where the command succeeded.
pub open spec fn failure_message(
    cmd: Seq<Seq<char>>,
    status: ExecutorStatus,
    output: Seq<char>,
    msg: Option<Seq<char>>,
) -> Option<Seq<char>> {
    match status {
        ExecutorStatus::Success => None,
        ExecutorStatus::ExitCode(code) => Some(
            "command `"@ + shell_quoted_line(cmd) + "` exited with code "@ + signed_decimal(
                code as int,
            ) + remark(msg) + ": "@ + output,
        ),
        ExecutorStatus::Signal(sig) => Some(
            "command `"@ + shell_quoted_line(cmd) + "` was killed by signal "@ + signed_decimal(
                sig as int,
            ) + remark(msg) + ": "@ + output,
        ),
        ExecutorStatus::ExecFailure(e) => Some(
            "command `"@ + shell_quoted_line(cmd) + "` could not be started"@ + remark(msg)
                + ": "@ + e@,
        ),
    }
}

/// The remark as `failure_message` takes it.
pub open spec fn remark_view(msg: Option<&str>) -> Option<Seq<char>> {
    match msg {
        Some(m) => Some(m@),
        None => None,
    }
}

/// Writes the failure message for a command that did not succeed.
pub fn describe_failure(
    cmd: &[String],
    status: &ExecutorStatus,
    output: &str,
    msg: Option<&str>,
) -> (message: String)
    requires
        !(*status is Success),
    ensures
        Some(message@) == failure_message(texts(cmd@), *status, output@, remark_view(msg)),
{
    let mut rest = String::new();
    if let Some(m) = msg {
        rest.append(" ");
        rest.append(m);
    }
    rest.append(": ");
    proof {
        reveal_strlit(" ");
        assert(rest@ =~= remark(remark_view(msg)) + ": "@);
    }
    let mut out = String::from_str("command `");
    let line = shell_quote_many(cmd);
    out.append(line.as_str());
    match status {
        ExecutorStatus::Success => {},
        ExecutorStatus::ExitCode(code) => {
            out.append("` exited with code ");
            let digits = signed_decimal_string(*code);
            out.append(digits.as_str());
            out.append(rest.as_str());
            out.append(output);
        },
        ExecutorStatus::Signal(sig) => {
            out.append("` was killed by signal ");
            let digits = signed_decimal_string(*sig);
            out.append(digits.as_str());
            out.append(rest.as_str());
            out.append(output);
        },
        ExecutorStatus::ExecFailure(e) => {
            out.append("` could not be started");
            out.append(rest.as_str());
            out.append(e.as_str());
        },
    }
    assert(Some(out@) =~= failure_message(texts(cmd@), *status, output@, remark_view(msg)));
    out
}

impl<'t> ExecutorResult<'t> {
    /// `Ok` for a command that succeeded, else the failure with its message,
    /// which carries `msg` where one is given.
    pub fn to_anyhow(&self, msg: Option<&str>) -> (r: Result<(), CommandError>)
        ensures
            match failure_message(
                texts(self.cmd@),
                self.status,
                self.combined_output@,
                remark_view(msg),
            ) {
                Some(text) => r matches Err(e) && e.message@ == text,
                None => r is Ok,
            },
    {
        match &self.status {
            ExecutorStatus::Success => Ok(()),
            _ => Err(
                CommandError {
                    message: describe_failure(
                        self.cmd,
                        &self.status,
                        self.combined_output.as_str(),
                        msg,
                    ),
                },
            ),
        }
    }

    pub fn is_success(&self) -> (b: bool)
        ensures
            b == (self.status is Success),
    {
        match &self.status {
            ExecutorStatus::Success => true,
            ExecutorStatus::ExitCode(_) => false,
            ExecutorStatus::Signal(_) => false,
            ExecutorStatus::ExecFailure(_) => false,
        }
    }

    pub fn code(&self) -> (code: Option<i32>)
        ensures
            code == match self.status {
                ExecutorStatus::ExitCode(c) => Some(c),
                _ => None,
            },
    {
        match &self.status {
            ExecutorStatus::Success => None,
            ExecutorStatus::ExitCode(code) => Some(*code),
            ExecutorStatus::Signal(_) => None,
            ExecutorStatus::ExecFailure(_) => None,
        }
    }

    pub fn signal(&self) -> (signal: Option<i32>)
        ensures
            signal == match self.status {
                ExecutorStatus::Signal(n) => Some(n),
                _ => None,
            },
    {
        match &self.status {
            ExecutorStatus::Success => None,
            ExecutorStatus::ExitCode(_) => None,
            ExecutorStatus::Signal(n) => Some(*n),
            ExecutorStatus::ExecFailure(_) => None,
        }
    }
}

/// Something that runs commands: it is told which operation a command
/// performs and given the program with its arguments, and says how it ended.
pub trait Executor {
    fn execute<'t>(&mut self, action: AnyAction, cmd: &'t [String]) -> (result: ExecutorResult<'t>)
        requires
            cmd@.len() > 0,
    ;
}

/// Runs nothing, and reports every command as a success without output.
pub struct DryExecutor;

impl Executor for DryExecutor {
    fn execute<'t>(&mut self, action: AnyAction, cmd: &'t [String]) -> (result: ExecutorResult<'t>)
        ensures
            result.cmd@ == cmd@,
            result.status is Success,
            result.combined_output@ == Seq::<char>::empty(),
    {
        ExecutorResult { cmd, status: ExecutorStatus::Success, combined_output: String::new() }
    }
}

} // verus!
