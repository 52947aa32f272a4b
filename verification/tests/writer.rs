use firewall::executor::{DryExecutor, Executor, ExecutorResult, ExecutorStatus};
use firewall::iptables::{
    Action, AnyAction, Effect, Filter, IptablesWriter, Negatable, Protocol, RecreatingMode,
    Restriction, Rule, RuleAction,
};

fn example(interfaces: Vec<String>) -> IptablesWriter {
    let mut iptables = IptablesWriter::new(vec!["ip6tables".into()]);
    let our_chain = Filter::Custom("our-chain".into());

    iptables.push(
        Action::NewChain,
        Rule {
            chain: our_chain.clone(),
            restrictions: vec![],
            rule_action: RuleAction::NoAction,
        },
        RecreatingMode::Owned,
    );

    for chain in [Filter::INPUT, Filter::FORWARD] {
        iptables.push(
            Action::Insert(1),
            Rule {
                chain: chain.clone(),
                restrictions: vec![],
                rule_action: RuleAction::Jump(our_chain.clone()),
            },
            RecreatingMode::Owned,
        )
    }

    for interface in interfaces {
        for port in [22, 80, 9080] {
            iptables.push(
                Action::Append,
                Rule {
                    chain: our_chain.clone(),
                    restrictions: vec![
                        Restriction::Interface(Negatable::Is, interface.clone()),
                        Restriction::Protocol(Negatable::Is, Protocol::Tcp),
                        Restriction::DestinationPort(Negatable::Is, port),
                    ],
                    rule_action: RuleAction::Return,
                },
                RecreatingMode::Owned,
            )
        }
        iptables.push(
            Action::Append,
            Rule {
                chain: our_chain.clone(),
                restrictions: vec![Restriction::Interface(Negatable::Is, interface.clone())],
                rule_action: RuleAction::Reject,
            },
            RecreatingMode::Owned,
        )
    }

    iptables
}

struct MockExecutor(Vec<(&'static str, ExecutorStatus, String)>);

impl Executor for MockExecutor {
    fn execute<'t>(&mut self, _action: AnyAction, cmd: &'t [String]) -> ExecutorResult<'t> {
        for (arg, status, output) in &self.0 {
            if cmd.contains(&String::from(*arg)) {
                return ExecutorResult {
                    cmd,
                    status: status.clone(),
                    combined_output: output.clone(),
                };
            }
        }
        ExecutorResult {
            cmd,
            status: ExecutorStatus::Success,
            combined_output: "".into(),
        }
    }
}

fn lines(lines: &[&str]) -> String {
    let mut out = String::new();
    for line in lines {
        out.push_str(line);
        out.push('\n');
    }
    out
}

fn run_example(mut executor: MockExecutor) -> Result<String, String> {
    let iptables = example(vec!["eth42".into()]);
    let run = iptables.execute(Effect::Recreation, true, &mut executor);
    match run.result {
        Ok(()) => Ok(run
            .verbose_output
            .iter()
            .map(|line| format!("{line}\n"))
            .collect()),
        Err(e) => Err(e.to_string()),
    }
}

#[test]
fn verify_error_mode() {
    assert_eq!(
        run_example(MockExecutor(vec![
            // code 1 would happen if the chain didn't exist (OK, -F
            // should also fail, then)
            ("-X", ExecutorStatus::ExitCode(1), "".into()),
        ]))
        .unwrap(),
        lines(&[
            "+ ip6tables -t filter -D our-chain -i eth42 -j REJECT",
            "+ ip6tables -t filter -D our-chain -i eth42 -p tcp --dport 9080 -j RETURN",
            "+ ip6tables -t filter -D our-chain -i eth42 -p tcp --dport 80 -j RETURN",
            "+ ip6tables -t filter -D our-chain -i eth42 -p tcp --dport 22 -j RETURN",
            "+ ip6tables -t filter -D FORWARD -j our-chain",
            "+ ip6tables -t filter -D INPUT -j our-chain",
            "+ ip6tables -t filter -F our-chain",
            "E ip6tables -t filter -X our-chain",
            "+ ip6tables -t filter -N our-chain",
            "+ ip6tables -t filter -I INPUT 1 -j our-chain",
            "+ ip6tables -t filter -I FORWARD 1 -j our-chain",
            "+ ip6tables -t filter -A our-chain -i eth42 -p tcp --dport 22 -j RETURN",
            "+ ip6tables -t filter -A our-chain -i eth42 -p tcp --dport 80 -j RETURN",
            "+ ip6tables -t filter -A our-chain -i eth42 -p tcp --dport 9080 -j RETURN",
            "+ ip6tables -t filter -A our-chain -i eth42 -j REJECT",
        ])
    );

    assert_eq!(
        run_example(MockExecutor(vec![
            // code 4 happens if the chain can't be removed because it
            // is still "in use", but in this case iptables also
            // prints a message saying so. We're not giving that
            // message so we expect an error.
            ("-X", ExecutorStatus::ExitCode(4), "".into()),
        ]))
        .unwrap_err(),
        "command `ip6tables -t filter -X our-chain` exited with code 4: "
    );

    // Simulate chain deletion failure because of it being busy; but
    // do not simulate the subsequent error on the -N action.
    assert_eq!(
        run_example(MockExecutor(vec![(
            "-X",
            ExecutorStatus::ExitCode(4),
            ".. CHAIN_DEL failed (Device or resource busy) ..".into()
        ),]))
        .unwrap(),
        lines(&[
            "+ ip6tables -t filter -D our-chain -i eth42 -j REJECT",
            "+ ip6tables -t filter -D our-chain -i eth42 -p tcp --dport 9080 -j RETURN",
            "+ ip6tables -t filter -D our-chain -i eth42 -p tcp --dport 80 -j RETURN",
            "+ ip6tables -t filter -D our-chain -i eth42 -p tcp --dport 22 -j RETURN",
            "+ ip6tables -t filter -D FORWARD -j our-chain",
            "+ ip6tables -t filter -D INPUT -j our-chain",
            "+ ip6tables -t filter -F our-chain",
            "E ip6tables -t filter -X our-chain",
            "+ ip6tables -t filter -N our-chain",
            "+ ip6tables -t filter -I INPUT 1 -j our-chain",
            "+ ip6tables -t filter -I FORWARD 1 -j our-chain",
            "+ ip6tables -t filter -A our-chain -i eth42 -p tcp --dport 22 -j RETURN",
            "+ ip6tables -t filter -A our-chain -i eth42 -p tcp --dport 80 -j RETURN",
            "+ ip6tables -t filter -A our-chain -i eth42 -p tcp --dport 9080 -j RETURN",
            "+ ip6tables -t filter -A our-chain -i eth42 -j REJECT",
        ])
    );

    // Simulate chain deletion failure because of it being busy,
    // including subsequent error on -N action.
    assert_eq!(
        run_example(MockExecutor(vec![
            (
                "-X",
                ExecutorStatus::ExitCode(4),
                ".. CHAIN_DEL failed (Device or resource busy) ..".into()
            ),
            (
                "-N",
                ExecutorStatus::ExitCode(1),
                "iptables: Chain already exists.".into()
            )
        ]))
        .unwrap(),
        lines(&[
            "+ ip6tables -t filter -D our-chain -i eth42 -j REJECT",
            "+ ip6tables -t filter -D our-chain -i eth42 -p tcp --dport 9080 -j RETURN",
            "+ ip6tables -t filter -D our-chain -i eth42 -p tcp --dport 80 -j RETURN",
            "+ ip6tables -t filter -D our-chain -i eth42 -p tcp --dport 22 -j RETURN",
            "+ ip6tables -t filter -D FORWARD -j our-chain",
            "+ ip6tables -t filter -D INPUT -j our-chain",
            "+ ip6tables -t filter -F our-chain",
            "E ip6tables -t filter -X our-chain",
            "E ip6tables -t filter -N our-chain",
            "+ ip6tables -t filter -I INPUT 1 -j our-chain",
            "+ ip6tables -t filter -I FORWARD 1 -j our-chain",
            "+ ip6tables -t filter -A our-chain -i eth42 -p tcp --dport 22 -j RETURN",
            "+ ip6tables -t filter -A our-chain -i eth42 -p tcp --dport 80 -j RETURN",
            "+ ip6tables -t filter -A our-chain -i eth42 -p tcp --dport 9080 -j RETURN",
            "+ ip6tables -t filter -A our-chain -i eth42 -j REJECT",
        ])
    );
}

#[test]
fn test_restriction_common() {
    let mut iptables = IptablesWriter::new(vec!["ip6tables".into()]);
    iptables.push(
        Action::Append,
        Rule {
            chain: Filter::INPUT,
            restrictions: vec![Restriction::Custom(vec![
                "-m".to_string(),
                "conntrack".to_string(),
                "--ctstate".to_string(),
                "RELATED,ESTABLISHED".to_string(),
            ])],
            rule_action: RuleAction::NoAction,
        },
        RecreatingMode::Owned,
    );
    let run = iptables.execute(Effect::Recreation, true, &mut DryExecutor);
    run.result.unwrap();
    let output: String = run
        .verbose_output
        .iter()
        .map(|line| format!("{line}\n"))
        .collect();
    assert_eq!(
        output,
        lines(&[
            "+ ip6tables -t filter -D INPUT -m conntrack --ctstate RELATED,ESTABLISHED",
            "+ ip6tables -t filter -A INPUT -m conntrack --ctstate RELATED,ESTABLISHED",
        ])
    );
}
