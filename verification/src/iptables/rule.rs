//! The syntax of one firewall rule: the chain it is attached to, its match
//! conditions, and its disposition.

use vstd::prelude::*;
use crate::iptables::action::AnyAction;
use crate::iptables::chain::{Table, TablechainEnum, TablechainTrait};
use crate::string_enum::ToLcString;
use crate::text::{decimal, decimal_string, push_string, push_word, push_words, texts};

verus! {

/// An IPv4 network in CIDR form: an address and the length of its prefix,
/// which is at most 32.
#[derive(Debug, PartialEq, Eq, Clone, Copy)]
pub struct Ipv4Network {
    octets: (u8, u8, u8, u8),
    prefix_len: u8,
}

impl Ipv4Network {
    #[verifier::type_invariant]
    spec fn valid(self) -> bool {
        self.prefix_len <= 32
    }

    /// The four octets of the address, most significant first.
    pub closed spec fn spec_octets(self) -> (u8, u8, u8, u8) {
        self.octets
    }

    /// The number of leading bits that name the network.
    pub closed spec fn spec_prefix_len(self) -> u8 {
        self.prefix_len
    }

    /// The text of the network: the address in dotted decimal, a slash, and
    /// the prefix length in decimal.
    pub open spec fn text(self) -> Seq<char> {
        cidr_text(self.spec_octets(), self.spec_prefix_len())
    }

    /// The network `a.b.c.d/prefix_len`, or `None` if the prefix is longer
    /// than the 32 bits of an address.
    pub fn new(a: u8, b: u8, c: u8, d: u8, prefix_len: u8) -> (net: Option<Self>)
        ensures
            net is Some <==> prefix_len <= 32,
            net matches Some(n) ==> n.spec_octets() == (a, b, c, d) && n.spec_prefix_len()
                == prefix_len,
    {
        if prefix_len > 32 {
            None
        } else {
            Some(Ipv4Network { octets: (a, b, c, d), prefix_len })
        }
    }

    pub fn octets(&self) -> (o: (u8, u8, u8, u8))
        ensures
            o == self.spec_octets(),
    {
        self.octets
    }

    pub fn prefix_len(&self) -> (len: u8)
        ensures
            len == self.spec_prefix_len(),
            len <= 32,
    {
        proof {
            use_type_invariant(self);
        }
        self.prefix_len
    }

    pub fn to_string(&self) -> (s: String)
        ensures
            s@ == self.text(),
    {
        proof {
            use_type_invariant(self);
        }
        cidr_string(self.octets, self.prefix_len)
    }
}

/// The CIDR text of an address and a prefix length: the four octets in
/// decimal, separated by dots, then a slash and the prefix length in decimal.
pub open spec fn cidr_text(octets: (u8, u8, u8, u8), prefix_len: u8) -> Seq<char> {
    decimal(octets.0 as nat) + seq!['.'] + decimal(octets.1 as nat) + seq!['.'] + decimal(
        octets.2 as nat,
    ) + seq!['.'] + decimal(octets.3 as nat) + seq!['/'] + decimal(prefix_len as nat)
}

/// Formats a network with `ipnet`: `Ipv4Net::new_assert` builds the value,
/// which panics only for a prefix longer than 32 bits, and its `Display`
/// writes the address, a slash and the prefix length. The claim is that this
/// text is the dotted-decimal CIDR form.
#[verifier::external_body]
fn cidr_string(octets: (u8, u8, u8, u8), prefix_len: u8) -> (s: String)
    requires
        prefix_len <= 32,
    ensures
        s@ == cidr_text(octets, prefix_len),
{
    let address = [octets.0, octets.1, octets.2, octets.3];
    ipnet::Ipv4Net::new_assert(address.into(), prefix_len).to_string()
}

/// The protocols that a rule can match on.
#[derive(Debug, PartialEq, Eq, Clone, Copy, Structural)]
pub enum Protocol {
    All,
    Tcp,
    Udp,
    Udplite,
    Icmp,
    Icmpv6,
    Esp,
    Ah,
    Sctp,
    Mh,
}

impl Protocol {
    /// The name by which the control tool knows the protocol.
    pub open spec fn name(self) -> Seq<char> {
        match self {
            Protocol::All => "all"@,
            Protocol::Tcp => "tcp"@,
            Protocol::Udp => "udp"@,
            Protocol::Udplite => "udplite"@,
            Protocol::Icmp => "icmp"@,
            Protocol::Icmpv6 => "icmpv6"@,
            Protocol::Esp => "esp"@,
            Protocol::Ah => "ah"@,
            Protocol::Sctp => "sctp"@,
            Protocol::Mh => "mh"@,
        }
    }

    pub fn as_str(&self) -> (s: &'static str)
        ensures
            s@ == self.name(),
    {
        match self {
            Protocol::All => "all",
            Protocol::Tcp => "tcp",
            Protocol::Udp => "udp",
            Protocol::Udplite => "udplite",
            Protocol::Icmp => "icmp",
            Protocol::Icmpv6 => "icmpv6",
            Protocol::Esp => "esp",
            Protocol::Ah => "ah",
            Protocol::Sctp => "sctp",
            Protocol::Mh => "mh",
        }
    }
}

impl ToLcString for Protocol {
    open spec fn lc_name(&self) -> Seq<char> {
        self.name()
    }

    fn to_lc_string(&self) -> (s: String) {
        let name = self.as_str();
        assert(name@ == self.lc_name());
        String::from_str(name)
    }
}

/// Whether a match condition is taken as it is or negated.
#[derive(Debug, PartialEq, Eq, Clone, Copy, Structural)]
pub enum Negatable {
    Is,
    IsNot,
}

impl Negatable {
    /// The words of the negation: `!` or nothing.
    pub open spec fn args(self) -> Seq<Seq<char>> {
        match self {
            Negatable::Is => Seq::empty(),
            Negatable::IsNot => seq!["!"@],
        }
    }

    pub fn push_args(&self, out: &mut Vec<String>)
        ensures
            texts(final(out)@) == texts(old(out)@) + self.args(),
    {
        let ghost before = texts(out@);
        match self {
            Negatable::Is => (),
            Negatable::IsNot => push_word(out, "!"),
        }
        assert(texts(out@) =~= before + self.args());
    }
}

/// One match condition of a rule.
#[derive(Debug, PartialEq, Eq, Clone)]
pub enum Restriction {
    Interface(Negatable, String),
    Protocol(Negatable, Protocol),
    SourceAddress(Negatable, Ipv4Network),
    DestinationAddress(Negatable, Ipv4Network),
    SourcePort(Negatable, u16),
    DestinationPort(Negatable, u16),
    Custom(Vec<String>),
}

impl Restriction {
    /// The words of the condition: the negation if there is one, the flag and
    /// the value; for a free-form condition its words as they are.
    pub open spec fn args(&self) -> Seq<Seq<char>> {
        match self {
            Restriction::Interface(neg, s) => neg.args() + seq!["-i"@, s@],
            Restriction::Protocol(neg, p) => neg.args() + seq!["-p"@, p.name()],
            Restriction::SourceAddress(neg, net) => neg.args() + seq!["-s"@, net.text()],
            Restriction::DestinationAddress(neg, net) => neg.args() + seq!["-d"@, net.text()],
            Restriction::SourcePort(neg, n) => neg.args() + seq!["--sport"@, decimal(*n as nat)],
            Restriction::DestinationPort(neg, n) => neg.args() + seq![
                "--dport"@,
                decimal(*n as nat),
            ],
            Restriction::Custom(conditions) => texts(conditions@),
        }
    }

    pub fn push_args(&self, out: &mut Vec<String>)
        ensures
            texts(final(out)@) == texts(old(out)@) + self.args(),
    {
        match self {
            Restriction::Interface(neg, s) => push_condition(*neg, "-i", s.clone(), out),
            Restriction::Protocol(neg, p) => push_condition(*neg, "-p", p.to_lc_string(), out),
            Restriction::SourceAddress(neg, net) => push_condition(
                *neg,
                "-s",
                net.to_string(),
                out,
            ),
            Restriction::DestinationAddress(neg, net) => push_condition(
                *neg,
                "-d",
                net.to_string(),
                out,
            ),
            Restriction::SourcePort(neg, n) => push_condition(
                *neg,
                "--sport",
                decimal_string(*n as u64),
                out,
            ),
            Restriction::DestinationPort(neg, n) => push_condition(
                *neg,
                "--dport",
                decimal_string(*n as u64),
                out,
            ),
            Restriction::Custom(conditions) => push_words(out, conditions),
        }
    }
}

/// Appends one match condition: the negation if any, the flag and the value.
fn push_condition(neg: Negatable, flag: &str, value: String, out: &mut Vec<String>)
    ensures
        texts(final(out)@) == texts(old(out)@) + (neg.args() + seq![flag@, value@]),
{
    let ghost before = texts(out@);
    neg.push_args(out);
    push_word(out, flag);
    push_string(out, value);
    assert(texts(out@) =~= before + (neg.args() + seq![flag@, value@]));
}

/// The words of a sequence of match conditions, in order.
pub open spec fn restrictions_args(restrictions: Seq<Restriction>) -> Seq<Seq<char>>
    decreases restrictions.len(),
{
    if restrictions.len() == 0 {
        Seq::empty()
    } else {
        restrictions_args(restrictions.drop_last()) + restrictions.last().args()
    }
}

/// What happens to a packet that a rule matches.
#[derive(Debug, PartialEq, Eq, Clone)]
pub enum RuleAction<C: TablechainTrait> {
    /// The rule has no disposition of its own.
    NoAction,
    Return,
    Drop,
    Reject,
    Jump(C),
    Goto(C),
}

/// The disposition of a rule with the chain it refers to given by name only:
/// that chain is in the rule's own table.
pub enum Target {
    NoAction,
    Return,
    Drop,
    Reject,
    Jump(Seq<char>),
    Goto(Seq<char>),
}

impl Target {
    /// The words of the disposition: nothing, or `-j` or `-g` and where to.
    pub open spec fn args(self) -> Seq<Seq<char>> {
        match self {
            Target::NoAction => Seq::empty(),
            Target::Return => seq!["-j"@, "RETURN"@],
            Target::Drop => seq!["-j"@, "DROP"@],
            Target::Reject => seq!["-j"@, "REJECT"@],
            Target::Jump(chain) => seq!["-j"@, chain],
            Target::Goto(chain) => seq!["-g"@, chain],
        }
    }
}

impl<C: TablechainTrait> RuleAction<C> {
    /// The disposition, naming the chain it refers to.
    pub open spec fn target(&self) -> Target {
        match self {
            RuleAction::NoAction => Target::NoAction,
            RuleAction::Return => Target::Return,
            RuleAction::Drop => Target::Drop,
            RuleAction::Reject => Target::Reject,
            RuleAction::Jump(c) => Target::Jump(c.name()),
            RuleAction::Goto(c) => Target::Goto(c.name()),
        }
    }

    /// Whether the chain that the disposition refers to, if any, is in
    /// `table`.
    pub open spec fn stays_in(&self, table: Table) -> bool {
        match self {
            RuleAction::Jump(c) => c.table() == table,
            RuleAction::Goto(c) => c.table() == table,
            _ => true,
        }
    }

    pub fn push_args(&self, out: &mut Vec<String>)
        ensures
            texts(final(out)@) == texts(old(out)@) + self.target().args(),
    {
        let ghost before = texts(out@);
        match self {
            RuleAction::NoAction => {},
            RuleAction::Return => {
                push_word(out, "-j");
                push_word(out, "RETURN");
            },
            RuleAction::Drop => {
                push_word(out, "-j");
                push_word(out, "DROP");
            },
            RuleAction::Reject => {
                push_word(out, "-j");
                push_word(out, "REJECT");
            },
            RuleAction::Jump(c) => {
                push_word(out, "-j");
                push_string(out, c.chain_name());
            },
            RuleAction::Goto(c) => {
                push_word(out, "-g");
                push_string(out, c.chain_name());
            },
        }
        assert(texts(out@) =~= before + self.target().args());
    }

    /// The same disposition over the sum of all tables' chains.
    pub fn generalize(&self) -> (general: RuleAction<TablechainEnum>)
        ensures
            general.target() == self.target(),
            forall|table: Table| general.stays_in(table) == self.stays_in(table),
    {
        match self {
            RuleAction::NoAction => RuleAction::NoAction,
            RuleAction::Return => RuleAction::Return,
            RuleAction::Drop => RuleAction::Drop,
            RuleAction::Reject => RuleAction::Reject,
            RuleAction::Jump(c) => RuleAction::Jump(c.to_tablechain()),
            RuleAction::Goto(c) => RuleAction::Goto(c.to_tablechain()),
        }
    }
}

/// One firewall rule: the chain it is attached to, what it matches, and what
/// happens to a packet that it matches.
#[derive(Debug, PartialEq, Eq, Clone)]
pub struct Rule<C: TablechainTrait> {
    pub chain: C,
    pub restrictions: Vec<Restriction>,
    pub rule_action: RuleAction<C>,
}

/// What a rule says, whatever the type of its chain.
pub struct RuleView {
    pub table: Table,
    pub chain: Seq<char>,
    pub restrictions: Seq<Restriction>,
    pub target: Target,
}

impl RuleView {
    /// The arguments that make the control tool apply `action` to the rule:
    /// the table, the operation on the chain, the match conditions and the
    /// disposition.
    pub open spec fn args(self, action: AnyAction) -> Seq<Seq<char>> {
        seq!["-t"@, self.table.name()] + action.args(self.chain) + restrictions_args(
            self.restrictions,
        ) + self.target.args()
    }
}

impl<C: TablechainTrait> View for Rule<C> {
    type V = RuleView;

    open spec fn view(&self) -> RuleView {
        RuleView {
            table: self.chain.table(),
            chain: self.chain.name(),
            restrictions: self.restrictions@,
            target: self.rule_action.target(),
        }
    }
}

impl<C: TablechainTrait> Rule<C> {
    /// Whether the chain that the rule jumps or goes to, if any, is in the
    /// table of the chain that the rule is attached to.
    pub open spec fn same_table(&self) -> bool {
        self.rule_action.stays_in(self.chain.table())
    }

    pub fn cmd_args(&self, action: AnyAction) -> (args: Vec<String>)
        ensures
            texts(args@) == self@.args(action),
    {
        let mut out: Vec<String> = Vec::new();
        self.chain.push_args(action, &mut out);
        let ghost head = texts(out@);
        let n = self.restrictions.len();
        let mut i: usize = 0;
        while i < n
            invariant
                n == self.restrictions@.len(),
                i <= n,
                texts(out@) == head + restrictions_args(self.restrictions@.subrange(0, i as int)),
            decreases n - i,
        {
            self.restrictions[i].push_args(&mut out);
            proof {
                let next = self.restrictions@.subrange(0, i + 1);
                assert(next.drop_last() =~= self.restrictions@.subrange(0, i as int));
                assert(texts(out@) =~= head + restrictions_args(next));
            }
            i = i + 1;
        }
        assert(self.restrictions@.subrange(0, n as int) =~= self.restrictions@);
        self.rule_action.push_args(&mut out);
        assert(texts(out@) =~= self@.args(action));
        out
    }

    /// The same rule over the sum of all tables' chains.
    pub fn generalize(self) -> (general: Rule<TablechainEnum>)
        ensures
            general@ == self@,
            general.same_table() == self.same_table(),
    {
        let chain = self.chain.to_tablechain();
        let rule_action = self.rule_action.generalize();
        Rule { chain, restrictions: self.restrictions, rule_action }
    }
}

/// Anything that can be rendered as the arguments of the control tool.
pub trait RuleTrait {
    /// The arguments for `action`.
    spec fn rendered(&self, action: AnyAction) -> Seq<Seq<char>>;

    fn cmd_args(&self, action: AnyAction) -> (args: Vec<String>)
        ensures
            texts(args@) == self.rendered(action),
    ;
}

impl<C: TablechainTrait> RuleTrait for Rule<C> {
    open spec fn rendered(&self, action: AnyAction) -> Seq<Seq<char>> {
        self@.args(action)
    }

    fn cmd_args(&self, action: AnyAction) -> (args: Vec<String>) {
        Rule::cmd_args(self, action)
    }
}

} // verus!
