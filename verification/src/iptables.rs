//! The rule model, the primitive actions of the control tool, and the writer
//! that turns declared rules into an ordered sequence of commands.

pub mod action;
pub mod chain;
pub mod laws;
pub mod outcome;
pub mod rule;
pub mod writer;

pub use self::action::{Action, AnyAction, DeletionAction};
pub use self::chain::{
    Filter, Mangle, Nat, Raw, Security, Table, TablechainEnum, TablechainTrait,
};
pub use self::outcome::ResultInterpretation;
pub use self::rule::{
    Ipv4Network, Negatable, Protocol, Restriction, Rule, RuleAction, RuleTrait, RuleView, Target,
};
pub use self::writer::{
    Effect, Execution, ExecutionError, Invocation, IptablesWriter, Operation, RecreatingMode, Step,
};
