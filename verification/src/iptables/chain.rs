//! Tables and their chains.

use vstd::prelude::*;
use crate::iptables::action::AnyAction;
use crate::string_enum::ToLcString;
use crate::text::{push_string, push_word, texts};

verus! {

/// A partition of the firewall's chains.
#[derive(Debug, PartialEq, Eq, Clone, Copy, Structural)]
pub enum Table {
    Filter,
    Nat,
    Mangle,
    Raw,
    Security,
}

impl Table {
    /// The name by which the control tool knows the table.
    pub open spec fn name(self) -> Seq<char> {
        match self {
            Table::Filter => "filter"@,
            Table::Nat => "nat"@,
            Table::Mangle => "mangle"@,
            Table::Raw => "raw"@,
            Table::Security => "security"@,
        }
    }

    pub fn as_str(&self) -> (s: &'static str)
        ensures
            s@ == self.name(),
    {
        match self {
            Table::Filter => "filter",
            Table::Nat => "nat",
            Table::Mangle => "mangle",
            Table::Raw => "raw",
            Table::Security => "security",
        }
    }
}

impl ToLcString for Table {
    open spec fn lc_name(&self) -> Seq<char> {
        self.name()
    }

    fn to_lc_string(&self) -> (s: String) {
        let name = self.as_str();
        assert(name@ == self.lc_name());
        String::from_str(name)
    }
}

/// A chain of some table: what a rule is attached to, or jumps to.
pub trait TablechainTrait {
    /// The table that the chain lives in.
    spec fn table(&self) -> Table;

    /// The chain's name within its table.
    spec fn name(&self) -> Seq<char>;

    fn chain_name(&self) -> (s: String)
        ensures
            s@ == self.name(),
    ;

    fn table_and_chain_names(&self) -> (names: (String, String))
        ensures
            names.0@ == self.table().name(),
            names.1@ == self.name(),
    ;

    /// The same chain as a member of the sum of all tables' chains.
    fn to_tablechain(&self) -> (chain: TablechainEnum)
        ensures
            chain.in_table() == self.table(),
            chain.label() == self.name(),
    ;

    /// For collecting the arguments for the iptables command.
    fn push_args(&self, action: AnyAction, out: &mut Vec<String>)
        ensures
            texts(final(out)@) == texts(old(out)@) + seq!["-t"@, self.table().name()]
                + action.args(self.name()),
    {
        let ghost before = texts(out@);
        let (table_name, chain_name) = self.table_and_chain_names();
        push_word(out, "-t");
        push_string(out, table_name);
        action.push_args(chain_name, out);
        assert(texts(out@) =~= before + seq!["-t"@, self.table().name()] + action.args(
            self.name(),
        ));
    }
}

/// The chains of the filter table.
#[derive(Debug, PartialEq, Eq, Clone)]
pub enum Filter {
    INPUT,
    FORWARD,
    OUTPUT,
    Custom(String),
}

impl Filter {
    /// The chain's name: that of the built-in chain, or the one the caller
    /// chose.
    pub open spec fn label(&self) -> Seq<char> {
        match self {
            Filter::INPUT => "INPUT"@,
            Filter::FORWARD => "FORWARD"@,
            Filter::OUTPUT => "OUTPUT"@,
            Filter::Custom(s) => s@,
        }
    }
}

impl TablechainTrait for Filter {
    open spec fn table(&self) -> Table {
        Table::Filter
    }

    open spec fn name(&self) -> Seq<char> {
        self.label()
    }

    fn chain_name(&self) -> (s: String) {
        match self {
            Filter::INPUT => String::from_str("INPUT"),
            Filter::FORWARD => String::from_str("FORWARD"),
            Filter::OUTPUT => String::from_str("OUTPUT"),
            Filter::Custom(s) => s.clone(),
        }
    }

    fn table_and_chain_names(&self) -> (names: (String, String)) {
        (Table::Filter.to_lc_string(), self.chain_name())
    }

    fn to_tablechain(&self) -> (chain: TablechainEnum) {
        TablechainEnum::Filter(self.clone_chain())
    }
}

impl Filter {
    /// A copy of the chain.
    pub fn clone_chain(&self) -> (copy: Self)
        ensures
            copy.label() == self.label(),
    {
        match self {
            Filter::INPUT => Filter::INPUT,
            Filter::FORWARD => Filter::FORWARD,
            Filter::OUTPUT => Filter::OUTPUT,
            Filter::Custom(s) => Filter::Custom(s.clone()),
        }
    }
}

/// The chains of the nat table.
#[derive(Debug, PartialEq, Eq, Clone)]
pub enum Nat {
    PREROUTING,
    INPUT,
    OUTPUT,
    POSTROUTING,
    Custom(String),
}

impl Nat {
    /// The chain's name: that of the built-in chain, or the one the caller
    /// chose.
    pub open spec fn label(&self) -> Seq<char> {
        match self {
            Nat::PREROUTING => "PREROUTING"@,
            Nat::INPUT => "INPUT"@,
            Nat::OUTPUT => "OUTPUT"@,
            Nat::POSTROUTING => "POSTROUTING"@,
            Nat::Custom(s) => s@,
        }
    }
}

impl TablechainTrait for Nat {
    open spec fn table(&self) -> Table {
        Table::Nat
    }

    open spec fn name(&self) -> Seq<char> {
        self.label()
    }

    fn chain_name(&self) -> (s: String) {
        match self {
            Nat::PREROUTING => String::from_str("PREROUTING"),
            Nat::INPUT => String::from_str("INPUT"),
            Nat::OUTPUT => String::from_str("OUTPUT"),
            Nat::POSTROUTING => String::from_str("POSTROUTING"),
            Nat::Custom(s) => s.clone(),
        }
    }

    fn table_and_chain_names(&self) -> (names: (String, String)) {
        (Table::Nat.to_lc_string(), self.chain_name())
    }

    fn to_tablechain(&self) -> (chain: TablechainEnum) {
        TablechainEnum::Nat(self.clone_chain())
    }
}

impl Nat {
    /// A copy of the chain.
    pub fn clone_chain(&self) -> (copy: Self)
        ensures
            copy.label() == self.label(),
    {
        match self {
            Nat::PREROUTING => Nat::PREROUTING,
            Nat::INPUT => Nat::INPUT,
            Nat::OUTPUT => Nat::OUTPUT,
            Nat::POSTROUTING => Nat::POSTROUTING,
            Nat::Custom(s) => Nat::Custom(s.clone()),
        }
    }
}

/// The chains of the mangle table.
#[derive(Debug, PartialEq, Eq, Clone)]
pub enum Mangle {
    PREROUTING,
    INPUT,
    OUTPUT,
    FORWARD,
    POSTROUTING,
    Custom(String),
}

impl Mangle {
    /// The chain's name: that of the built-in chain, or the one the caller
    /// chose.
    pub open spec fn label(&self) -> Seq<char> {
        match self {
            Mangle::PREROUTING => "PREROUTING"@,
            Mangle::INPUT => "INPUT"@,
            Mangle::OUTPUT => "OUTPUT"@,
            Mangle::FORWARD => "FORWARD"@,
            Mangle::POSTROUTING => "POSTROUTING"@,
            Mangle::Custom(s) => s@,
        }
    }
}

impl TablechainTrait for Mangle {
    open spec fn table(&self) -> Table {
        Table::Mangle
    }

    open spec fn name(&self) -> Seq<char> {
        self.label()
    }

    fn chain_name(&self) -> (s: String) {
        match self {
            Mangle::PREROUTING => String::from_str("PREROUTING"),
            Mangle::INPUT => String::from_str("INPUT"),
            Mangle::OUTPUT => String::from_str("OUTPUT"),
            Mangle::FORWARD => String::from_str("FORWARD"),
            Mangle::POSTROUTING => String::from_str("POSTROUTING"),
            Mangle::Custom(s) => s.clone(),
        }
    }

    fn table_and_chain_names(&self) -> (names: (String, String)) {
        (Table::Mangle.to_lc_string(), self.chain_name())
    }

    fn to_tablechain(&self) -> (chain: TablechainEnum) {
        TablechainEnum::Mangle(self.clone_chain())
    }
}

impl Mangle {
    /// A copy of the chain.
    pub fn clone_chain(&self) -> (copy: Self)
        ensures
            copy.label() == self.label(),
    {
        match self {
            Mangle::PREROUTING => Mangle::PREROUTING,
            Mangle::INPUT => Mangle::INPUT,
            Mangle::OUTPUT => Mangle::OUTPUT,
            Mangle::FORWARD => Mangle::FORWARD,
            Mangle::POSTROUTING => Mangle::POSTROUTING,
            Mangle::Custom(s) => Mangle::Custom(s.clone()),
        }
    }
}

/// The chains of the raw table.
#[derive(Debug, PartialEq, Eq, Clone)]
pub enum Raw {
    PREROUTING,
    OUTPUT,
    Custom(String),
}

impl Raw {
    /// The chain's name: that of the built-in chain, or the one the caller
    /// chose.
    pub open spec fn label(&self) -> Seq<char> {
        match self {
            Raw::PREROUTING => "PREROUTING"@,
            Raw::OUTPUT => "OUTPUT"@,
            Raw::Custom(s) => s@,
        }
    }
}

impl TablechainTrait for Raw {
    open spec fn table(&self) -> Table {
        Table::Raw
    }

    open spec fn name(&self) -> Seq<char> {
        self.label()
    }

    fn chain_name(&self) -> (s: String) {
        match self {
            Raw::PREROUTING => String::from_str("PREROUTING"),
            Raw::OUTPUT => String::from_str("OUTPUT"),
            Raw::Custom(s) => s.clone(),
        }
    }

    fn table_and_chain_names(&self) -> (names: (String, String)) {
        (Table::Raw.to_lc_string(), self.chain_name())
    }

    fn to_tablechain(&self) -> (chain: TablechainEnum) {
        TablechainEnum::Raw(self.clone_chain())
    }
}

impl Raw {
    /// A copy of the chain.
    pub fn clone_chain(&self) -> (copy: Self)
        ensures
            copy.label() == self.label(),
    {
        match self {
            Raw::PREROUTING => Raw::PREROUTING,
            Raw::OUTPUT => Raw::OUTPUT,
            Raw::Custom(s) => Raw::Custom(s.clone()),
        }
    }
}

/// The chains of the security table.
#[derive(Debug, PartialEq, Eq, Clone)]
pub enum Security {
    INPUT,
    OUTPUT,
    FORWARD,
    Custom(String),
}

impl Security {
    /// The chain's name: that of the built-in chain, or the one the caller
    /// chose.
    pub open spec fn label(&self) -> Seq<char> {
        match self {
            Security::INPUT => "INPUT"@,
            Security::OUTPUT => "OUTPUT"@,
            Security::FORWARD => "FORWARD"@,
            Security::Custom(s) => s@,
        }
    }
}

impl TablechainTrait for Security {
    open spec fn table(&self) -> Table {
        Table::Security
    }

    open spec fn name(&self) -> Seq<char> {
        self.label()
    }

    fn chain_name(&self) -> (s: String) {
        match self {
            Security::INPUT => String::from_str("INPUT"),
            Security::OUTPUT => String::from_str("OUTPUT"),
            Security::FORWARD => String::from_str("FORWARD"),
            Security::Custom(s) => s.clone(),
        }
    }

    fn table_and_chain_names(&self) -> (names: (String, String)) {
        (Table::Security.to_lc_string(), self.chain_name())
    }

    fn to_tablechain(&self) -> (chain: TablechainEnum) {
        TablechainEnum::Security(self.clone_chain())
    }
}

impl Security {
    /// A copy of the chain.
    pub fn clone_chain(&self) -> (copy: Self)
        ensures
            copy.label() == self.label(),
    {
        match self {
            Security::INPUT => Security::INPUT,
            Security::OUTPUT => Security::OUTPUT,
            Security::FORWARD => Security::FORWARD,
            Security::Custom(s) => Security::Custom(s.clone()),
        }
    }
}

/// A chain of any table.
#[derive(Debug, PartialEq, Eq, Clone)]
pub enum TablechainEnum {
    Filter(Filter),
    Nat(Nat),
    Mangle(Mangle),
    Raw(Raw),
    Security(Security),
}

impl TablechainEnum {
    /// The table that the chain lives in.
    pub open spec fn in_table(&self) -> Table {
        match self {
            TablechainEnum::Filter(_) => Table::Filter,
            TablechainEnum::Nat(_) => Table::Nat,
            TablechainEnum::Mangle(_) => Table::Mangle,
            TablechainEnum::Raw(_) => Table::Raw,
            TablechainEnum::Security(_) => Table::Security,
        }
    }

    /// The chain's name within its table.
    pub open spec fn label(&self) -> Seq<char> {
        match self {
            TablechainEnum::Filter(c) => c.label(),
            TablechainEnum::Nat(c) => c.label(),
            TablechainEnum::Mangle(c) => c.label(),
            TablechainEnum::Raw(c) => c.label(),
            TablechainEnum::Security(c) => c.label(),
        }
    }

    pub fn table_and_chain_names(&self) -> (names: (String, String))
        ensures
            names.0@ == self.in_table().name(),
            names.1@ == self.label(),
    {
        match self {
            TablechainEnum::Filter(c) => c.table_and_chain_names(),
            TablechainEnum::Nat(c) => c.table_and_chain_names(),
            TablechainEnum::Mangle(c) => c.table_and_chain_names(),
            TablechainEnum::Raw(c) => c.table_and_chain_names(),
            TablechainEnum::Security(c) => c.table_and_chain_names(),
        }
    }
}

impl TablechainTrait for TablechainEnum {
    open spec fn table(&self) -> Table {
        self.in_table()
    }

    open spec fn name(&self) -> Seq<char> {
        self.label()
    }

    fn chain_name(&self) -> (s: String) {
        match self {
            TablechainEnum::Filter(c) => c.chain_name(),
            TablechainEnum::Nat(c) => c.chain_name(),
            TablechainEnum::Mangle(c) => c.chain_name(),
            TablechainEnum::Raw(c) => c.chain_name(),
            TablechainEnum::Security(c) => c.chain_name(),
        }
    }

    fn table_and_chain_names(&self) -> (names: (String, String)) {
        TablechainEnum::table_and_chain_names(self)
    }

    fn to_tablechain(&self) -> (chain: TablechainEnum) {
        match self {
            TablechainEnum::Filter(c) => c.to_tablechain(),
            TablechainEnum::Nat(c) => c.to_tablechain(),
            TablechainEnum::Mangle(c) => c.to_tablechain(),
            TablechainEnum::Raw(c) => c.to_tablechain(),
            TablechainEnum::Security(c) => c.to_tablechain(),
        }
    }
}

impl From<Filter> for TablechainEnum {
    fn from(value: Filter) -> (chain: Self) {
        TablechainEnum::Filter(value)
    }
}

impl vstd::std_specs::convert::FromSpecImpl<Filter> for TablechainEnum {
    open spec fn obeys_from_spec() -> bool {
        true
    }

    open spec fn from_spec(value: Filter) -> Self {
        TablechainEnum::Filter(value)
    }
}

impl From<Nat> for TablechainEnum {
    fn from(value: Nat) -> (chain: Self) {
        TablechainEnum::Nat(value)
    }
}

impl vstd::std_specs::convert::FromSpecImpl<Nat> for TablechainEnum {
    open spec fn obeys_from_spec() -> bool {
        true
    }

    open spec fn from_spec(value: Nat) -> Self {
        TablechainEnum::Nat(value)
    }
}

impl From<Mangle> for TablechainEnum {
    fn from(value: Mangle) -> (chain: Self) {
        TablechainEnum::Mangle(value)
    }
}

impl vstd::std_specs::convert::FromSpecImpl<Mangle> for TablechainEnum {
    open spec fn obeys_from_spec() -> bool {
        true
    }

    open spec fn from_spec(value: Mangle) -> Self {
        TablechainEnum::Mangle(value)
    }
}

impl From<Raw> for TablechainEnum {
    fn from(value: Raw) -> (chain: Self) {
        TablechainEnum::Raw(value)
    }
}

impl vstd::std_specs::convert::FromSpecImpl<Raw> for TablechainEnum {
    open spec fn obeys_from_spec() -> bool {
        true
    }

    open spec fn from_spec(value: Raw) -> Self {
        TablechainEnum::Raw(value)
    }
}

impl From<Security> for TablechainEnum {
    fn from(value: Security) -> (chain: Self) {
        TablechainEnum::Security(value)
    }
}

impl vstd::std_specs::convert::FromSpecImpl<Security> for TablechainEnum {
    open spec fn obeys_from_spec() -> bool {
        true
    }

    open spec fn from_spec(value: Security) -> Self {
        TablechainEnum::Security(value)
    }
}

} // verus!
