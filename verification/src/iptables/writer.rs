//! The writer: it collects the declared rules and runs the commands that
//! create them, undo them, or both.

use vstd::prelude::*;
use crate::executor::{describe_failure, failure_message, Executor, ExecutorStatus};
use crate::iptables::action::{Action, AnyAction};
use crate::iptables::chain::{TablechainEnum, TablechainTrait};
use crate::iptables::outcome::{interpret, ResultInterpretation};
use crate::iptables::rule::{Rule, RuleView};
use crate::shell_quote::{shell_quote_many, shell_quoted_line};
use crate::text::{push_string, push_words, texts};

verus! {

/// What end result you want: Deletion inverts the result of an
/// action. Recreation first deletes then creates. Creation just runs
/// the action as it was declared (rarely what you want).
#[derive(Debug, Clone, Copy, PartialEq, Eq, Structural)]
pub enum Effect {
    Creation,
    Recreation,
    Deletion,
}

/// Who answers for a declared rule. An `Owned` rule is undone and created
/// again, and a failure either way counts. A `TryCreationNoDeletion` rule is
/// never undone, and its creation may find the rule or chain missing.
#[derive(Debug, Clone, Copy, PartialEq, Eq, Structural)]
pub enum RecreatingMode {
    Owned,
    TryCreationNoDeletion,
}

/// One declared operation: what to do, to which rule, and who answers for it.
pub struct Operation {
    pub action: AnyAction,
    pub rule: RuleView,
    pub mode: RecreatingMode,
}

/// One step of a run.
#[derive(Debug, Clone, Copy, PartialEq, Eq, Structural)]
pub enum Step {
    /// Run the command that applies `action` to the rule of the operation
    /// declared at `index`.
    Run { index: usize, action: AnyAction },
    /// Stop: the operation declared at `index` is to be undone, and creates
    /// nothing that could be undone.
    Refuse { index: usize },
}

impl Step {
    /// The place of the declared operation that the step belongs to.
    pub open spec fn operation(self) -> usize {
        match self {
            Step::Run { index, .. } => index,
            Step::Refuse { index } => index,
        }
    }
}

/// The steps that create what was declared: each operation as it was
/// declared, in the order of declaration.
pub open spec fn creation_steps(ops: Seq<Operation>) -> Seq<Step> {
    Seq::new(ops.len(), |i: int| Step::Run { index: i as usize, action: ops[i].action })
}

/// The steps that undo the operation declared at `index`: none where the
/// operation is never undone, its deletion sequence where it creates
/// something, and a refusal where it does not.
pub open spec fn undo_steps(op: Operation, index: usize) -> Seq<Step> {
    if op.mode == RecreatingMode::TryCreationNoDeletion {
        Seq::empty()
    } else {
        match op.action {
            AnyAction::Creation(a) => Seq::new(
                a.undo().len(),
                |k: int| Step::Run { index, action: AnyAction::Deletion(a.undo()[k]) },
            ),
            _ => seq![Step::Refuse { index }],
        }
    }
}

/// The steps that undo what was declared: the operation declared last is
/// undone first.
pub open spec fn deletion_steps(ops: Seq<Operation>) -> Seq<Step>
    decreases ops.len(),
{
    if ops.len() == 0 {
        Seq::empty()
    } else {
        undo_steps(ops.last(), (ops.len() - 1) as usize) + deletion_steps(ops.drop_last())
    }
}

/// The steps of a run for the wanted effect.
pub open spec fn plan_steps(ops: Seq<Operation>, want: Effect) -> Seq<Step> {
    match want {
        Effect::Creation => creation_steps(ops),
        Effect::Deletion => deletion_steps(ops),
        Effect::Recreation => deletion_steps(ops) + creation_steps(ops),
    }
}

/// One command that was run, and how it ended.
#[derive(Debug, Clone, PartialEq, Eq)]
pub struct Invocation {
    pub action: AnyAction,
    pub cmd: Vec<String>,
    pub status: ExecutorStatus,
    pub combined_output: String,
}

impl Invocation {
    /// What the outcome of the command means.
    pub open spec fn meaning(&self) -> ResultInterpretation {
        interpret(self.status, self.combined_output@)
    }

    /// The line that the command leaves in the verbose output: `+` for a
    /// success and `E` for anything else, a space, and the quoted command.
    pub open spec fn log_line(&self) -> Seq<char> {
        (if self.status is Success {
            "+ "@
        } else {
            "E "@
        }) + shell_quoted_line(texts(self.cmd@))
    }
}

/// The verbose output that a sequence of commands leaves.
pub open spec fn log_of(invocations: Seq<Invocation>) -> Seq<Seq<char>> {
    Seq::new(invocations.len(), |i: int| invocations[i].log_line())
}

/// Why a run stopped before its end.
#[derive(Debug, Clone, PartialEq, Eq)]
pub enum ExecutionError {
    /// A command ended in a way that the run does not go on after.
    CommandFailed {
        cmd: Vec<String>,
        interpretation: ResultInterpretation,
        combined_output: String,
        message: String,
    },
    /// An operation that creates nothing was declared, and was to be undone.
    NotACreation { action: AnyAction },
}

impl ExecutionError {
    /// The text of the error for a human reader.
    pub open spec fn text(&self) -> Seq<char> {
        match self {
            ExecutionError::CommandFailed { message, .. } => message@,
            ExecutionError::NotACreation { action } =>
                "cannot undo the non-creating action "@ + action.debug_text(),
        }
    }

    pub fn to_string(&self) -> (s: String)
        ensures
            s@ == self.text(),
    {
        match self {
            ExecutionError::CommandFailed { message, .. } => message.clone(),
            ExecutionError::NotACreation { action } => {
                let mut s = String::from_str("cannot undo the non-creating action ");
                s.append(action.debug_string().as_str());
                s
            },
        }
    }
}

/// What a run did: the commands that it ran with their outcomes, the verbose
/// output if it was asked for, and how the run ended.
pub struct Execution {
    pub invocations: Vec<Invocation>,
    pub verbose_output: Vec<String>,
    pub result: Result<(), ExecutionError>,
}

/// Whether `inv` is the command of `step`: for the step's action, and made of
/// the tool's own command and the arguments of the step's rule.
pub open spec fn follows(base: Seq<Seq<char>>, ops: Seq<Operation>, step: Step, inv: Invocation)
    -> bool {
    &&& step matches Step::Run { index, action }
    &&& index < ops.len()
    &&& inv.action == action
    &&& texts(inv.cmd@) == base + ops[index as int].rule.args(action)
}

/// Whether the run goes on after the command `inv` of `step`.
pub open spec fn passes(ops: Seq<Operation>, step: Step, inv: Invocation) -> bool {
    &&& step matches Step::Run { index, action }
    &&& index < ops.len()
    &&& inv.meaning().tolerated(action, ops[index as int].mode)
}

/// Whether `error` is the failure of the command `inv`.
pub open spec fn reports(inv: Invocation, error: ExecutionError) -> bool {
    &&& error matches ExecutionError::CommandFailed { cmd, interpretation, combined_output, message }
    &&& texts(cmd@) == texts(inv.cmd@)
    &&& interpretation == inv.meaning()
    &&& combined_output@ == inv.combined_output@
    &&& Some(message@) == failure_message(
        texts(inv.cmd@),
        inv.status,
        inv.combined_output@,
        inv.meaning().complaint(inv.action),
    )
}

/// Whether a run of the steps `plan` can have left this account: the
/// commands are those of the first steps, in order; the run went on after
/// each but possibly the last; it ended well exactly if it went on after
/// every step of the plan, and else with the failure of the last command or
/// at a step that refuses; and the verbose output, if asked for, holds one
/// line for each command.
pub open spec fn account(
    base: Seq<Seq<char>>,
    ops: Seq<Operation>,
    plan: Seq<Step>,
    verbose: bool,
    invocations: Seq<Invocation>,
    log: Seq<Seq<char>>,
    result: Result<(), ExecutionError>,
) -> bool {
    let n = invocations.len() as int;
    &&& n <= plan.len()
    &&& forall|i: int| 0 <= i < n ==> follows(base, ops, #[trigger] plan[i], invocations[i])
    &&& forall|i: int| 0 <= i < n - 1 ==> passes(ops, #[trigger] plan[i], invocations[i])
    &&& log == if verbose {
        log_of(invocations)
    } else {
        Seq::empty()
    }
    &&& match result {
        Ok(_) => n == plan.len() && (n > 0 ==> passes(ops, plan[n - 1], invocations[n - 1])),
        Err(error) => if n > 0 && !passes(ops, plan[n - 1], invocations[n - 1]) {
            reports(invocations[n - 1], error)
        } else {
            &&& n < plan.len()
            &&& plan[n] matches Step::Refuse { index }
            &&& index < ops.len()
            &&& error matches ExecutionError::NotACreation { action }
            &&& action == ops[index as int].action
        },
    }
}

/// Collects declared rules, and runs the commands for them.
pub struct IptablesWriter {
    iptables_cmd: Vec<String>,
    actions: Vec<(AnyAction, Rule<TablechainEnum>, RecreatingMode)>,
}

impl IptablesWriter {
    /// The control tool's own command: the program and the arguments that
    /// every command starts with.
    pub closed spec fn base_cmd(&self) -> Seq<Seq<char>> {
        texts(self.iptables_cmd@)
    }

    /// The declared operations, in the order of declaration.
    pub closed spec fn operations(&self) -> Seq<Operation> {
        Seq::new(
            self.actions@.len(),
            |i: int|
                Operation {
                    action: self.actions@[i].0,
                    rule: self.actions@[i].1@,
                    mode: self.actions@[i].2,
                },
        )
    }

    /// The steps of a run for the wanted effect.
    pub open spec fn steps(&self, want: Effect) -> Seq<Step> {
        plan_steps(self.operations(), want)
    }

    /// Whether `run` is an account of a run for the wanted effect.
    pub open spec fn accounts_for(&self, want: Effect, verbose: bool, run: Execution) -> bool {
        account(
            self.base_cmd(),
            self.operations(),
            self.steps(want),
            verbose,
            run.invocations@,
            texts(run.verbose_output@),
            run.result,
        )
    }

    pub fn new(iptables_cmd: Vec<String>) -> (writer: Self)
        ensures
            writer.base_cmd() == texts(iptables_cmd@),
            writer.operations() == Seq::<Operation>::empty(),
    {
        let writer = Self { iptables_cmd, actions: Vec::new() };
        assert(writer.operations() =~= Seq::<Operation>::empty());
        writer
    }

    /// Pushes the rule with the corresponding action regardless of
    /// whether the action is creative or other. You usually don't
    /// want to use this, but rather `push` instead.
    pub fn _push<T: TablechainTrait>(
        &mut self,
        action: AnyAction,
        rule: Rule<T>,
        recreating_mode: RecreatingMode,
    )
        ensures
            final(self).base_cmd() == old(self).base_cmd(),
            final(self).operations() == old(self).operations().push(
                Operation { action, rule: rule@, mode: recreating_mode },
            ),
    {
        let general = rule.generalize();
        self.actions.push((action, general, recreating_mode));
        assert(self.operations() =~= old(self).operations().push(
            Operation { action, rule: rule@, mode: recreating_mode },
        ));
    }

    /// Push a rule with creative action. Because deleting actions are
    /// usually done via running `execute` with an Effect that deletes
    /// (including recreation), they are automatically derived
    /// there. Also, deleting `Effect`s lead to the reversal of the
    /// order of rule application; hence call `push` always in the
    /// order appropriate for the creation of rules.
    pub fn push<T: TablechainTrait>(
        &mut self,
        action: Action,
        rule: Rule<T>,
        recreating_mode: RecreatingMode,
    )
        ensures
            final(self).base_cmd() == old(self).base_cmd(),
            final(self).operations() == old(self).operations().push(
                Operation {
                    action: AnyAction::Creation(action),
                    rule: rule@,
                    mode: recreating_mode,
                },
            ),
    {
        self._push(AnyAction::from(action), rule, recreating_mode);
    }
}

/// Every step of a plan belongs to a declared operation.
pub proof fn lemma_steps_in_range(ops: Seq<Operation>, want: Effect)
    requires
        ops.len() <= usize::MAX,
    ensures
        forall|k: int|
            0 <= k < plan_steps(ops, want).len() ==> (#[trigger] plan_steps(
                ops,
                want,
            )[k]).operation() < ops.len(),
{
    lemma_deletion_steps_in_range(ops);
}

proof fn lemma_deletion_steps_in_range(ops: Seq<Operation>)
    requires
        ops.len() <= usize::MAX,
    ensures
        forall|k: int|
            0 <= k < deletion_steps(ops).len() ==> (#[trigger] deletion_steps(ops)[k]).operation()
                < ops.len(),
    decreases ops.len(),
{
    if ops.len() > 0 {
        lemma_deletion_steps_in_range(ops.drop_last());
        let first = undo_steps(ops.last(), (ops.len() - 1) as usize);
        let rest = deletion_steps(ops.drop_last());
        assert forall|k: int| 0 <= k < deletion_steps(ops).len() implies (#[trigger] deletion_steps(
            ops,
        )[k]).operation() < ops.len() by {
            if k < first.len() {
                assert(deletion_steps(ops)[k] == first[k]);
            } else {
                assert(deletion_steps(ops)[k] == rest[k - first.len()]);
            }
        }
    }
}

impl IptablesWriter {
    /// The steps of a run for the wanted effect, in the order in which the
    /// run takes them.
    pub fn plan(&self, want: Effect) -> (steps: Vec<Step>)
        ensures
            steps@ == self.steps(want),
    {
        let ghost ops = self.operations();
        let mut steps: Vec<Step> = Vec::new();
        let n = self.actions.len();
        if want == Effect::Deletion || want == Effect::Recreation {
            let mut j: usize = n;
            proof {
                assert(ops.subrange(0, n as int) =~= ops);
            }
            while j > 0
                invariant
                    ops == self.operations(),
                    n == self.actions@.len(),
                    j <= n,
                    steps@ + deletion_steps(ops.subrange(0, j as int)) == deletion_steps(ops),
                decreases j,
            {
                j = j - 1;
                let ghost before = steps@;
                let action = self.actions[j].0;
                let mode = self.actions[j].2;
                if mode == RecreatingMode::Owned {
                    match action {
                        AnyAction::Creation(a) => {
                            let sequence = a.deletion_sequence();
                            let m = sequence.len();
                            let mut k: usize = 0;
                            while k < m
                                invariant
                                    m == sequence@.len(),
                                    k <= m,
                                    sequence@ == a.undo(),
                                    steps@ == before + undo_steps(ops[j as int], j).subrange(
                                        0,
                                        k as int,
                                    ),
                                    ops[j as int].action == AnyAction::Creation(a),
                                    ops[j as int].mode == RecreatingMode::Owned,
                                decreases m - k,
                            {
                                steps.push(
                                    Step::Run { index: j, action: AnyAction::Deletion(sequence[k]) },
                                );
                                k = k + 1;
                                assert(steps@ =~= before + undo_steps(ops[j as int], j).subrange(
                                    0,
                                    k as int,
                                ));
                            }
                            assert(steps@ =~= before + undo_steps(ops[j as int], j));
                        },
                        _ => {
                            steps.push(Step::Refuse { index: j });
                            assert(steps@ =~= before + undo_steps(ops[j as int], j));
                        },
                    }
                } else {
                    assert(steps@ =~= before + undo_steps(ops[j as int], j));
                }
                proof {
                    let upto = ops.subrange(0, j + 1);
                    assert(upto.last() == ops[j as int]);
                    assert(upto.drop_last() =~= ops.subrange(0, j as int));
                    assert(steps@ + deletion_steps(ops.subrange(0, j as int)) =~= before
                        + deletion_steps(upto));
                }
            }
            assert(steps@ =~= deletion_steps(ops));
        }
        if want == Effect::Creation || want == Effect::Recreation {
            let ghost before = steps@;
            let mut i: usize = 0;
            while i < n
                invariant
                    ops == self.operations(),
                    n == self.actions@.len(),
                    i <= n,
                    steps@ == before + creation_steps(ops).subrange(0, i as int),
                decreases n - i,
            {
                steps.push(Step::Run { index: i, action: self.actions[i].0 });
                i = i + 1;
                assert(steps@ =~= before + creation_steps(ops).subrange(0, i as int));
            }
            assert(steps@ =~= before + creation_steps(ops));
        }
        steps
    }
}

impl Invocation {
    /// Writes the line that the command leaves in the verbose output.
    pub fn to_log_line(&self) -> (line: String)
        ensures
            line@ == self.log_line(),
    {
        let mut line = match &self.status {
            ExecutorStatus::Success => String::from_str("+ "),
            _ => String::from_str("E "),
        };
        let quoted = shell_quote_many(self.cmd.as_slice());
        line.append(quoted.as_str());
        line
    }

    /// Decides whether the run goes on after the command, which was declared
    /// with `mode`: `Ok` to go on, else the failure of the command.
    pub fn judge(&self, mode: RecreatingMode) -> (verdict: Result<(), ExecutionError>)
        ensures
            verdict is Ok <==> self.meaning().tolerated(self.action, mode),
            verdict matches Err(error) ==> reports(*self, error),
    {
        let interpretation = ResultInterpretation::classify(
            &self.status,
            self.combined_output.as_str(),
        );
        match interpretation.apply_policy(self.action, mode) {
            Ok(_) => Ok(()),
            Err(note) => {
                let message = match &note {
                    Some(n) => describe_failure(
                        self.cmd.as_slice(),
                        &self.status,
                        self.combined_output.as_str(),
                        Some(n.as_str()),
                    ),
                    None => describe_failure(
                        self.cmd.as_slice(),
                        &self.status,
                        self.combined_output.as_str(),
                        None,
                    ),
                };
                let mut cmd: Vec<String> = Vec::new();
                push_words(&mut cmd, &self.cmd);
                assert(texts(cmd@) =~= texts(self.cmd@));
                Err(
                    ExecutionError::CommandFailed {
                        cmd,
                        interpretation,
                        combined_output: self.combined_output.clone(),
                        message,
                    },
                )
            },
        }
    }
}

impl IptablesWriter {
    /// Runs the command that applies `action` to the rule declared at
    /// `index`.
    fn invoke<E: Executor>(&self, index: usize, action: AnyAction, executor: &mut E) -> (inv:
        Invocation)
        requires
            index < self.operations().len(),
        ensures
            follows(self.base_cmd(), self.operations(), Step::Run { index, action }, inv),
    {
        let mut cmd: Vec<String> = Vec::new();
        push_words(&mut cmd, &self.iptables_cmd);
        let args = self.actions[index].1.cmd_args(action);
        push_words(&mut cmd, &args);
        assert(texts(cmd@) =~= self.base_cmd() + self.operations()[index as int].rule.args(
            action,
        ));
        assert(texts(cmd@).len() == cmd@.len());
        let result = executor.execute(action, cmd.as_slice());
        let status = result.status;
        let combined_output = result.combined_output;
        Invocation { action, cmd, status, combined_output }
    }

    /// Turn the pushed rules into rules for actual execution
    /// according to the wanted Effect. The commands go to `executor`, one
    /// after the other; the run stops at the first whose outcome is not
    /// tolerated, and at an operation that is to be undone and creates
    /// nothing.
    pub fn execute<E: Executor>(&self, want: Effect, verbose: bool, executor: &mut E) -> (run:
        Execution)
        ensures
            self.accounts_for(want, verbose, run),
    {
        let plan = self.plan(want);
        let ghost base = self.base_cmd();
        let ghost ops = self.operations();
        let declared = self.actions.len();
        proof {
            assert(ops.len() == declared);
            lemma_steps_in_range(ops, want);
        }
        let mut invocations: Vec<Invocation> = Vec::new();
        let mut verbose_output: Vec<String> = Vec::new();
        let n = plan.len();
        let mut i: usize = 0;
        while i < n
            invariant
                base == self.base_cmd(),
                ops == self.operations(),
                plan@ == self.steps(want),
                n == plan@.len(),
                i <= n,
                forall|k: int| 0 <= k < n ==> (#[trigger] plan@[k]).operation() < ops.len(),
                invocations@.len() == i,
                forall|k: int| 0 <= k < i ==> follows(base, ops, #[trigger] plan@[k], invocations@[k]),
                forall|k: int| 0 <= k < i ==> passes(ops, #[trigger] plan@[k], invocations@[k]),
                texts(verbose_output@) == if verbose {
                    log_of(invocations@)
                } else {
                    Seq::empty()
                },
            decreases n - i,
        {
            let step = plan[i];
            assert(plan@[i as int].operation() < ops.len());
            match step {
                Step::Refuse { index } => {
                    let action = self.actions[index].0;
                    return Execution {
                        invocations,
                        verbose_output,
                        result: Err(ExecutionError::NotACreation { action }),
                    };
                },
                Step::Run { index, action } => {
                    let mode = self.actions[index].2;
                    let inv = self.invoke(index, action, executor);
                    if verbose {
                        push_string(&mut verbose_output, inv.to_log_line());
                    }
                    let verdict = inv.judge(mode);
                    invocations.push(inv);
                    assert(texts(verbose_output@) =~= if verbose {
                        log_of(invocations@)
                    } else {
                        Seq::empty()
                    });
                    match verdict {
                        Ok(_) => {},
                        Err(error) => {
                            return Execution { invocations, verbose_output, result: Err(error) };
                        },
                    }
                },
            }
            i = i + 1;
        }
        Execution { invocations, verbose_output, result: Ok(()) }
    }
}

/// The words, each with a space before it.
pub open spec fn spaced(words: Seq<Seq<char>>) -> Seq<char>
    decreases words.len(),
{
    if words.len() == 0 {
        Seq::empty()
    } else {
        spaced(words.drop_last()) + " "@ + words.last()
    }
}

/// One line for each declared operation: the arguments that apply the
/// operation as it was declared, each with a space before it.
pub open spec fn listing(ops: Seq<Operation>) -> Seq<char>
    decreases ops.len(),
{
    if ops.len() == 0 {
        Seq::empty()
    } else {
        listing(ops.drop_last()) + spaced(ops.last().rule.args(ops.last().action)) + "\n"@
    }
}

impl IptablesWriter {
    /// For a dry_run; don't use as shell code, use execute (that can
    /// use cmd_args directly)!
    pub fn to_string(&self) -> (s: String)
        ensures
            s@ == listing(self.operations()),
    {
        let ghost ops = self.operations();
        let mut out = String::new();
        let n = self.actions.len();
        let mut i: usize = 0;
        while i < n
            invariant
                ops == self.operations(),
                n == self.actions@.len(),
                i <= n,
                out@ == listing(ops.subrange(0, i as int)),
            decreases n - i,
        {
            let ghost before = out@;
            let args = self.actions[i].1.cmd_args(self.actions[i].0);
            let m = args.len();
            let mut k: usize = 0;
            while k < m
                invariant
                    m == args@.len(),
                    k <= m,
                    out@ == before + spaced(texts(args@).subrange(0, k as int)),
                decreases m - k,
            {
                out.append(" ");
                out.append(args[k].as_str());
                proof {
                    let next = texts(args@).subrange(0, k + 1);
                    assert(next.drop_last() =~= texts(args@).subrange(0, k as int));
                    assert(next.last() == args@[k as int]@);
                    assert(out@ =~= before + spaced(next));
                }
                k = k + 1;
            }
            out.append("\n");
            proof {
                assert(texts(args@).subrange(0, m as int) =~= texts(args@));
                let upto = ops.subrange(0, i + 1);
                assert(upto.drop_last() =~= ops.subrange(0, i as int));
                assert(upto.last() == ops[i as int]);
                assert(out@ =~= listing(upto));
            }
            i = i + 1;
        }
        assert(ops.subrange(0, n as int) =~= ops);
        out
    }
}

} // verus!
