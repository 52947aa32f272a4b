//! The primitive operations of the control tool, and what undoes each
//! creating one.

use vstd::prelude::*;
use crate::string_enum::ToLcString;
use crate::text::{decimal, decimal_string, push_string, push_word, texts};

verus! {

/// The operations that create something in a table.
#[derive(Debug, PartialEq, Eq, Clone, Copy, Structural)]
pub enum Action {
    Append,
    /// Insert is holding a 1-based index
    Insert(u32),
    NewChain,
}

/// The operations that remove something from a table.
#[derive(Debug, PartialEq, Eq, Clone, Copy, Structural)]
pub enum DeletionAction {
    Delete,
    DeleteChain,
    Flush,
}

/// Any operation of the control tool on a rule or chain.
#[derive(Debug, PartialEq, Eq, Clone, Copy, Structural)]
pub enum AnyAction {
    Check,
    Creation(Action),
    Deletion(DeletionAction),
}

impl Action {
    /// The operation flag of the control tool.
    pub open spec fn flag(self) -> Seq<char> {
        match self {
            Action::Append => "-A"@,
            Action::Insert(_) => "-I"@,
            Action::NewChain => "-N"@,
        }
    }

    /// The words that select this operation on the chain `chain_name`: the
    /// flag, the chain, and for an insertion its position.
    pub open spec fn args(self, chain_name: Seq<char>) -> Seq<Seq<char>> {
        match self {
            Action::Insert(n) => seq![self.flag(), chain_name, decimal(n as nat)],
            _ => seq![self.flag(), chain_name],
        }
    }

    /// The operations that undo this one on an otherwise untouched table, in
    /// the order in which they have to run.
    pub open spec fn undo(self) -> Seq<DeletionAction> {
        match self {
            Action::Append => seq![DeletionAction::Delete],
            Action::Insert(_) => seq![DeletionAction::Delete],
            Action::NewChain => seq![DeletionAction::Flush, DeletionAction::DeleteChain],
        }
    }

    /// For collecting the arguments for the iptables command.
    pub fn push_args(&self, chain_name: String, out: &mut Vec<String>)
        ensures
            texts(final(out)@) == texts(old(out)@) + self.args(chain_name@),
    {
        let ghost before = texts(out@);
        match self {
            Action::Append => {
                push_word(out, "-A");
                push_string(out, chain_name);
            },
            Action::Insert(n) => {
                push_word(out, "-I");
                push_string(out, chain_name);
                push_string(out, decimal_string(*n as u64));
            },
            Action::NewChain => {
                push_word(out, "-N");
                push_string(out, chain_name);
            },
        }
        assert(texts(out@) =~= before + self.args(chain_name@));
    }

    /// The sequence of actions that are *removing* what this
    /// action created.
    pub fn deletion_sequence(&self) -> (sequence: Vec<DeletionAction>)
        ensures
            sequence@ == self.undo(),
            sequence@.len() > 0,
            forall|i: int|
                0 <= i < sequence@.len() ==> !AnyAction::Deletion(#[trigger] sequence@[i]).creates(),
    {
        let mut sequence: Vec<DeletionAction> = Vec::new();
        match self {
            Action::Append => {
                sequence.push(DeletionAction::Delete);
            },
            Action::Insert(_) => {
                sequence.push(DeletionAction::Delete);
            },
            Action::NewChain => {
                sequence.push(DeletionAction::Flush);
                sequence.push(DeletionAction::DeleteChain);
            },
        }
        assert(sequence@ =~= self.undo());
        sequence
    }
}

impl DeletionAction {
    /// The operation flag of the control tool.
    pub open spec fn flag(self) -> Seq<char> {
        match self {
            DeletionAction::Delete => "-D"@,
            DeletionAction::DeleteChain => "-X"@,
            DeletionAction::Flush => "-F"@,
        }
    }

    /// The words that select this operation on the chain `chain_name`.
    pub open spec fn args(self, chain_name: Seq<char>) -> Seq<Seq<char>> {
        seq![self.flag(), chain_name]
    }

    /// For collecting the arguments for the iptables command.
    pub fn push_args(&self, chain_name: String, out: &mut Vec<String>)
        ensures
            texts(final(out)@) == texts(old(out)@) + self.args(chain_name@),
    {
        let ghost before = texts(out@);
        match self {
            DeletionAction::Delete => push_word(out, "-D"),
            DeletionAction::DeleteChain => push_word(out, "-X"),
            DeletionAction::Flush => push_word(out, "-F"),
        }
        push_string(out, chain_name);
        assert(texts(out@) =~= before + self.args(chain_name@));
    }
}

impl AnyAction {
    /// The words that select this operation on the chain `chain_name`.
    pub open spec fn args(self, chain_name: Seq<char>) -> Seq<Seq<char>> {
        match self {
            AnyAction::Check => seq!["-C"@, chain_name],
            AnyAction::Creation(a) => a.args(chain_name),
            AnyAction::Deletion(a) => a.args(chain_name),
        }
    }

    /// Whether the operation creates something, which is to say whether it
    /// has a deletion sequence.
    pub open spec fn creates(self) -> bool {
        self is Creation
    }

    /// For collecting the arguments for the iptables command.
    pub fn push_args(&self, chain_name: String, out: &mut Vec<String>)
        ensures
            texts(final(out)@) == texts(old(out)@) + self.args(chain_name@),
    {
        match self {
            AnyAction::Check => {
                let ghost before = texts(out@);
                push_word(out, "-C");
                push_string(out, chain_name);
                assert(texts(out@) =~= before + self.args(chain_name@));
            },
            AnyAction::Creation(a) => a.push_args(chain_name, out),
            AnyAction::Deletion(a) => a.push_args(chain_name, out),
        }
    }

    pub fn is_creation(&self) -> (b: bool)
        ensures
            b == self.creates(),
    {
        match self {
            AnyAction::Check => false,
            AnyAction::Creation(_) => true,
            AnyAction::Deletion(_) => false,
        }
    }
}

impl Action {
    /// The text that names the operation in messages.
    pub open spec fn debug_text(self) -> Seq<char> {
        match self {
            Action::Append => "Append"@,
            Action::Insert(n) => "Insert("@ + decimal(n as nat) + ")"@,
            Action::NewChain => "NewChain"@,
        }
    }

    pub fn debug_string(&self) -> (s: String)
        ensures
            s@ == self.debug_text(),
    {
        match self {
            Action::Append => String::from_str("Append"),
            Action::Insert(n) => {
                let mut s = String::from_str("Insert(");
                let digits = decimal_string(*n as u64);
                s.append(digits.as_str());
                s.append(")");
                s
            },
            Action::NewChain => String::from_str("NewChain"),
        }
    }
}

impl DeletionAction {
    /// The text that names the operation in messages.
    pub open spec fn debug_text(self) -> Seq<char> {
        match self {
            DeletionAction::Delete => "Delete"@,
            DeletionAction::DeleteChain => "DeleteChain"@,
            DeletionAction::Flush => "Flush"@,
        }
    }

    pub fn debug_string(&self) -> (s: String)
        ensures
            s@ == self.debug_text(),
    {
        match self {
            DeletionAction::Delete => String::from_str("Delete"),
            DeletionAction::DeleteChain => String::from_str("DeleteChain"),
            DeletionAction::Flush => String::from_str("Flush"),
        }
    }
}

impl AnyAction {
    /// The text that names the operation in messages.
    pub open spec fn debug_text(self) -> Seq<char> {
        match self {
            AnyAction::Check => "Check"@,
            AnyAction::Creation(a) => "Creation("@ + a.debug_text() + ")"@,
            AnyAction::Deletion(a) => "Deletion("@ + a.debug_text() + ")"@,
        }
    }

    pub fn debug_string(&self) -> (s: String)
        ensures
            s@ == self.debug_text(),
    {
        match self {
            AnyAction::Check => String::from_str("Check"),
            AnyAction::Creation(a) => {
                let mut s = String::from_str("Creation(");
                let inner = a.debug_string();
                s.append(inner.as_str());
                s.append(")");
                s
            },
            AnyAction::Deletion(a) => {
                let mut s = String::from_str("Deletion(");
                let inner = a.debug_string();
                s.append(inner.as_str());
                s.append(")");
                s
            },
        }
    }
}

impl ToLcString for Action {
    open spec fn lc_name(&self) -> Seq<char> {
        match self {
            Action::Append => "append"@,
            Action::Insert(_) => "insert"@,
            Action::NewChain => "newchain"@,
        }
    }

    fn to_lc_string(&self) -> (s: String) {
        match self {
            Action::Append => String::from_str("append"),
            Action::Insert(_) => String::from_str("insert"),
            Action::NewChain => String::from_str("newchain"),
        }
    }
}

impl ToLcString for DeletionAction {
    open spec fn lc_name(&self) -> Seq<char> {
        match self {
            DeletionAction::Delete => "delete"@,
            DeletionAction::DeleteChain => "deletechain"@,
            DeletionAction::Flush => "flush"@,
        }
    }

    fn to_lc_string(&self) -> (s: String) {
        match self {
            DeletionAction::Delete => String::from_str("delete"),
            DeletionAction::DeleteChain => String::from_str("deletechain"),
            DeletionAction::Flush => String::from_str("flush"),
        }
    }
}

impl From<Action> for AnyAction {
    fn from(value: Action) -> (action: Self) {
        AnyAction::Creation(value)
    }
}

impl vstd::std_specs::convert::FromSpecImpl<Action> for AnyAction {
    open spec fn obeys_from_spec() -> bool {
        true
    }

    open spec fn from_spec(value: Action) -> Self {
        AnyAction::Creation(value)
    }
}

impl From<DeletionAction> for AnyAction {
    fn from(value: DeletionAction) -> (action: Self) {
        AnyAction::Deletion(value)
    }
}

impl vstd::std_specs::convert::FromSpecImpl<DeletionAction> for AnyAction {
    open spec fn obeys_from_spec() -> bool {
        true
    }

    open spec fn from_spec(value: DeletionAction) -> Self {
        AnyAction::Deletion(value)
    }
}

} // verus!
