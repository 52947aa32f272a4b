//! What a finished command printed, as one text.

use vstd::prelude::*;

verus! {

/// Values that hold the output of a command and can give it as one text.
pub trait CombinedString {
    /// The output as one text.
    spec fn combined(&self) -> Seq<char>;

    fn combined_string(&self) -> (s: String)
        ensures
            s@ == self.combined(),
    ;
}

/// What a command wrote to its standard output and to its standard error.
#[derive(Debug, Clone, PartialEq, Eq)]
pub struct CapturedOutput {
    pub stdout: String,
    pub stderr: String,
}

/// The two streams as one text: the one that is not empty, or both with
/// ` / ` between them.
pub open spec fn combine(stdout: Seq<char>, stderr: Seq<char>) -> Seq<char> {
    if stdout.len() == 0 {
        stderr
    } else if stderr.len() == 0 {
        stdout
    } else {
        stdout + " / "@ + stderr
    }
}

impl CombinedString for CapturedOutput {
    open spec fn combined(&self) -> Seq<char> {
        combine(self.stdout@, self.stderr@)
    }

    fn combined_string(&self) -> (s: String) {
        if self.stdout.as_str().is_empty() {
            self.stderr.clone()
        } else if self.stderr.as_str().is_empty() {
            self.stdout.clone()
        } else {
            let mut s = self.stdout.clone();
            s.append(" / ");
            s.append(self.stderr.as_str());
            s
        }
    }
}

} // verus!
