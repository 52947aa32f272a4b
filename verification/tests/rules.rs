use firewall::iptables::{
    Action, AnyAction, DeletionAction, Filter, Ipv4Network, Mangle, Nat, Negatable, Protocol, Raw,
    Restriction, Rule, RuleAction, RuleTrait, Security, Table, TablechainEnum, TablechainTrait,
};
use firewall::string_enum::ToLcString;

fn words(args: &[&str]) -> Vec<String> {
    args.iter().map(|s| s.to_string()).collect()
}

#[test]
fn table_names_are_lower_case() {
    assert_eq!(Table::Filter.to_lc_string(), "filter");
    assert_eq!(Table::Nat.to_lc_string(), "nat");
    assert_eq!(Table::Mangle.to_lc_string(), "mangle");
    assert_eq!(Table::Raw.to_lc_string(), "raw");
    assert_eq!(Table::Security.to_lc_string(), "security");
}

#[test]
fn action_names_are_lower_case() {
    assert_eq!(Action::Append.to_lc_string(), "append");
    assert_eq!(Action::Insert(5).to_lc_string(), "insert");
    assert_eq!(Action::NewChain.to_lc_string(), "newchain");
    assert_eq!(DeletionAction::Delete.to_lc_string(), "delete");
    assert_eq!(DeletionAction::DeleteChain.to_lc_string(), "deletechain");
    assert_eq!(DeletionAction::Flush.to_lc_string(), "flush");
}

#[test]
fn protocol_names_are_lower_case() {
    let expected = [
        (Protocol::All, "all"),
        (Protocol::Tcp, "tcp"),
        (Protocol::Udp, "udp"),
        (Protocol::Udplite, "udplite"),
        (Protocol::Icmp, "icmp"),
        (Protocol::Icmpv6, "icmpv6"),
        (Protocol::Esp, "esp"),
        (Protocol::Ah, "ah"),
        (Protocol::Sctp, "sctp"),
        (Protocol::Mh, "mh"),
    ];
    for (protocol, name) in expected {
        assert_eq!(protocol.to_lc_string(), name);
        assert_eq!(protocol.as_str(), name);
    }
}

#[test]
fn action_flags() {
    let mut out = vec!["x".to_string()];
    Action::Append.push_args("c".into(), &mut out);
    Action::Insert(3).push_args("c".into(), &mut out);
    Action::NewChain.push_args("c".into(), &mut out);
    DeletionAction::Delete.push_args("c".into(), &mut out);
    DeletionAction::DeleteChain.push_args("c".into(), &mut out);
    DeletionAction::Flush.push_args("c".into(), &mut out);
    AnyAction::Check.push_args("c".into(), &mut out);
    AnyAction::Creation(Action::Append).push_args("d".into(), &mut out);
    AnyAction::Deletion(DeletionAction::Flush).push_args("d".into(), &mut out);
    assert_eq!(
        out,
        words(&[
            "x", "-A", "c", "-I", "c", "3", "-N", "c", "-D", "c", "-X", "c", "-F", "c", "-C", "c",
            "-A", "d", "-F", "d"
        ])
    );
}

#[test]
fn insert_position_is_written_in_decimal() {
    for (position, text) in [(0u32, "0"), (1, "1"), (10, "10"), (4294967295, "4294967295")] {
        let mut out = Vec::new();
        Action::Insert(position).push_args("INPUT".into(), &mut out);
        assert_eq!(out, words(&["-I", "INPUT", text]));
    }
}

#[test]
fn deletion_sequences() {
    assert_eq!(Action::Append.deletion_sequence(), vec![DeletionAction::Delete]);
    assert_eq!(Action::Insert(7).deletion_sequence(), vec![DeletionAction::Delete]);
    assert_eq!(
        Action::NewChain.deletion_sequence(),
        vec![DeletionAction::Flush, DeletionAction::DeleteChain]
    );
}

#[test]
fn deletion_sequences_are_not_empty_and_create_nothing() {
    for action in [Action::Append, Action::Insert(1), Action::Insert(9), Action::NewChain] {
        let first = action.deletion_sequence();
        assert!(!first.is_empty());
        assert_eq!(first, action.deletion_sequence());
        for step in first {
            assert!(!AnyAction::from(step).is_creation());
        }
    }
}

#[test]
fn only_creations_create() {
    assert!(!AnyAction::Check.is_creation());
    assert!(AnyAction::Creation(Action::Append).is_creation());
    assert!(AnyAction::from(Action::NewChain).is_creation());
    assert!(!AnyAction::Deletion(DeletionAction::Delete).is_creation());
    assert_eq!(AnyAction::from(Action::Insert(2)), AnyAction::Creation(Action::Insert(2)));
    assert_eq!(
        AnyAction::from(DeletionAction::Flush),
        AnyAction::Deletion(DeletionAction::Flush)
    );
}

#[test]
fn action_names_in_messages() {
    assert_eq!(AnyAction::Check.debug_string(), format!("{:?}", AnyAction::Check));
    for action in [Action::Append, Action::Insert(0), Action::Insert(120), Action::NewChain] {
        assert_eq!(action.debug_string(), format!("{action:?}"));
        let any = AnyAction::Creation(action);
        assert_eq!(any.debug_string(), format!("{any:?}"));
    }
    for action in [DeletionAction::Delete, DeletionAction::DeleteChain, DeletionAction::Flush] {
        assert_eq!(action.debug_string(), format!("{action:?}"));
        let any = AnyAction::Deletion(action);
        assert_eq!(any.debug_string(), format!("{any:?}"));
    }
    assert_eq!(AnyAction::Creation(Action::Insert(1)).debug_string(), "Creation(Insert(1))");
}

#[test]
fn chain_names() {
    assert_eq!(Filter::INPUT.chain_name(), "INPUT");
    assert_eq!(Filter::FORWARD.chain_name(), "FORWARD");
    assert_eq!(Filter::OUTPUT.chain_name(), "OUTPUT");
    assert_eq!(Filter::Custom("mine".into()).chain_name(), "mine");
    assert_eq!(Nat::PREROUTING.chain_name(), "PREROUTING");
    assert_eq!(Nat::INPUT.chain_name(), "INPUT");
    assert_eq!(Nat::OUTPUT.chain_name(), "OUTPUT");
    assert_eq!(Nat::POSTROUTING.chain_name(), "POSTROUTING");
    assert_eq!(Mangle::PREROUTING.chain_name(), "PREROUTING");
    assert_eq!(Mangle::INPUT.chain_name(), "INPUT");
    assert_eq!(Mangle::OUTPUT.chain_name(), "OUTPUT");
    assert_eq!(Mangle::FORWARD.chain_name(), "FORWARD");
    assert_eq!(Mangle::POSTROUTING.chain_name(), "POSTROUTING");
    assert_eq!(Raw::PREROUTING.chain_name(), "PREROUTING");
    assert_eq!(Raw::OUTPUT.chain_name(), "OUTPUT");
    assert_eq!(Security::INPUT.chain_name(), "INPUT");
    assert_eq!(Security::OUTPUT.chain_name(), "OUTPUT");
    assert_eq!(Security::FORWARD.chain_name(), "FORWARD");
    assert_eq!(Security::Custom("s".into()).chain_name(), "s");
}

#[test]
fn table_and_chain_names_of_each_table() {
    let pair = |t: &str, c: &str| (t.to_string(), c.to_string());
    assert_eq!(Filter::INPUT.table_and_chain_names(), pair("filter", "INPUT"));
    assert_eq!(Nat::Custom("n".into()).table_and_chain_names(), pair("nat", "n"));
    assert_eq!(Mangle::FORWARD.table_and_chain_names(), pair("mangle", "FORWARD"));
    assert_eq!(Raw::PREROUTING.table_and_chain_names(), pair("raw", "PREROUTING"));
    assert_eq!(Security::OUTPUT.table_and_chain_names(), pair("security", "OUTPUT"));
    assert_eq!(
        TablechainEnum::from(Filter::OUTPUT).table_and_chain_names(),
        pair("filter", "OUTPUT")
    );
    assert_eq!(
        TablechainEnum::Nat(Nat::POSTROUTING).table_and_chain_names(),
        pair("nat", "POSTROUTING")
    );
    assert_eq!(
        TablechainEnum::Mangle(Mangle::Custom("m".into())).table_and_chain_names(),
        pair("mangle", "m")
    );
    assert_eq!(TablechainEnum::Raw(Raw::OUTPUT).table_and_chain_names(), pair("raw", "OUTPUT"));
    assert_eq!(
        TablechainEnum::Security(Security::INPUT).table_and_chain_names(),
        pair("security", "INPUT")
    );
}

#[test]
fn same_name_in_two_tables_is_two_chains() {
    let in_filter = TablechainEnum::Filter(Filter::Custom("x".into()));
    let in_nat = TablechainEnum::Nat(Nat::Custom("x".into()));
    assert_ne!(in_filter, in_nat);
    assert_eq!(in_filter.chain_name(), in_nat.chain_name());
    assert_eq!(in_filter, Filter::Custom("x".into()).to_tablechain());
    assert_eq!(in_filter.to_tablechain(), in_filter);
}

#[test]
fn chain_arguments_start_with_the_table() {
    let mut out = Vec::new();
    Nat::PREROUTING.push_args(AnyAction::Creation(Action::Insert(2)), &mut out);
    assert_eq!(out, words(&["-t", "nat", "-I", "PREROUTING", "2"]));
}

#[test]
fn restriction_flags() {
    let net = Ipv4Network::new(10, 1, 0, 0, 16).unwrap();
    let cases = [
        (Restriction::Interface(Negatable::Is, "eth0".into()), words(&["-i", "eth0"])),
        (Restriction::Protocol(Negatable::Is, Protocol::Udp), words(&["-p", "udp"])),
        (Restriction::SourceAddress(Negatable::Is, net), words(&["-s", "10.1.0.0/16"])),
        (Restriction::DestinationAddress(Negatable::Is, net), words(&["-d", "10.1.0.0/16"])),
        (Restriction::SourcePort(Negatable::Is, 0), words(&["--sport", "0"])),
        (Restriction::DestinationPort(Negatable::Is, 65535), words(&["--dport", "65535"])),
        (Restriction::Custom(words(&["-m", "state"])), words(&["-m", "state"])),
        (Restriction::Custom(vec![]), vec![]),
    ];
    for (restriction, expected) in cases {
        let mut out = vec!["head".to_string()];
        restriction.push_args(&mut out);
        assert_eq!(out[0], "head");
        assert_eq!(out[1..].to_vec(), expected);
    }
}

#[test]
fn negated_restrictions_have_the_mark_before_the_flag() {
    let net = Ipv4Network::new(192, 168, 7, 9, 32).unwrap();
    let cases = [
        (Restriction::Interface(Negatable::IsNot, "lo".into()), words(&["!", "-i", "lo"])),
        (Restriction::Protocol(Negatable::IsNot, Protocol::Icmpv6), words(&["!", "-p", "icmpv6"])),
        (Restriction::SourceAddress(Negatable::IsNot, net), words(&["!", "-s", "192.168.7.9/32"])),
        (
            Restriction::DestinationAddress(Negatable::IsNot, net),
            words(&["!", "-d", "192.168.7.9/32"]),
        ),
        (Restriction::SourcePort(Negatable::IsNot, 53), words(&["!", "--sport", "53"])),
        (Restriction::DestinationPort(Negatable::IsNot, 443), words(&["!", "--dport", "443"])),
    ];
    for (restriction, expected) in cases {
        let mut out = Vec::new();
        restriction.push_args(&mut out);
        assert_eq!(out, expected);
    }
    let mut out = Vec::new();
    Negatable::Is.push_args(&mut out);
    assert!(out.is_empty());
    Negatable::IsNot.push_args(&mut out);
    assert_eq!(out, words(&["!"]));
}

#[test]
fn networks_are_written_in_cidr_form() {
    assert_eq!(Ipv4Network::new(0, 0, 0, 0, 0).unwrap().to_string(), "0.0.0.0/0");
    assert_eq!(Ipv4Network::new(10, 0, 0, 0, 8).unwrap().to_string(), "10.0.0.0/8");
    assert_eq!(
        Ipv4Network::new(255, 255, 255, 255, 32).unwrap().to_string(),
        "255.255.255.255/32"
    );
    assert_eq!(Ipv4Network::new(172, 16, 254, 1, 12).unwrap().to_string(), "172.16.254.1/12");
    let net = Ipv4Network::new(1, 2, 3, 4, 5).unwrap();
    assert_eq!(net.octets(), (1, 2, 3, 4));
    assert_eq!(net.prefix_len(), 5);
}

#[test]
fn networks_have_at_most_32_prefix_bits() {
    assert!(Ipv4Network::new(10, 0, 0, 0, 32).is_some());
    assert!(Ipv4Network::new(10, 0, 0, 0, 33).is_none());
    assert!(Ipv4Network::new(10, 0, 0, 0, 255).is_none());
}

#[test]
fn rule_targets() {
    let target = |rule_action: RuleAction<Filter>| {
        let mut out = Vec::new();
        rule_action.push_args(&mut out);
        out
    };
    assert_eq!(target(RuleAction::NoAction), words(&[]));
    assert_eq!(target(RuleAction::Return), words(&["-j", "RETURN"]));
    assert_eq!(target(RuleAction::Drop), words(&["-j", "DROP"]));
    assert_eq!(target(RuleAction::Reject), words(&["-j", "REJECT"]));
    assert_eq!(target(RuleAction::Jump(Filter::Custom("c".into()))), words(&["-j", "c"]));
    assert_eq!(target(RuleAction::Goto(Filter::OUTPUT)), words(&["-g", "OUTPUT"]));
}

#[test]
fn rule_arguments_in_order() {
    let rule = Rule {
        chain: Mangle::Custom("marks".into()),
        restrictions: vec![
            Restriction::Interface(Negatable::Is, "eth1".into()),
            Restriction::Protocol(Negatable::IsNot, Protocol::Tcp),
            Restriction::Custom(words(&["-m", "mark", "--mark", "1"])),
            Restriction::DestinationPort(Negatable::Is, 8080),
        ],
        rule_action: RuleAction::Goto(Mangle::POSTROUTING),
    };
    let expected = |flag: &str| {
        let mut all = words(&["-t", "mangle", flag, "marks"]);
        all.extend(words(&[
            "-i", "eth1", "!", "-p", "tcp", "-m", "mark", "--mark", "1", "--dport", "8080", "-g",
            "POSTROUTING",
        ]));
        all
    };
    assert_eq!(rule.cmd_args(AnyAction::Creation(Action::Append)), expected("-A"));
    assert_eq!(rule.cmd_args(AnyAction::Deletion(DeletionAction::Delete)), expected("-D"));
    assert_eq!(rule.cmd_args(AnyAction::Check), expected("-C"));
    assert_eq!(RuleTrait::cmd_args(&rule, AnyAction::Check), expected("-C"));
    assert_eq!(rule.cmd_args(AnyAction::Check), rule.cmd_args(AnyAction::Check));
    let general = rule.clone().generalize();
    assert_eq!(general.cmd_args(AnyAction::Check), expected("-C"));
    assert_eq!(general.chain, TablechainEnum::Mangle(Mangle::Custom("marks".into())));
    assert_eq!(general.restrictions, rule.restrictions);
    assert_eq!(
        general.rule_action,
        RuleAction::Goto(TablechainEnum::Mangle(Mangle::POSTROUTING))
    );
}
