//! What holds of every plan and of every run.

use vstd::prelude::*;
use crate::executor::{failure_message, ExecutorStatus};
use crate::iptables::action::{Action, AnyAction, DeletionAction};
use crate::iptables::chain::{Filter, Mangle, Nat, Raw, Security};
use crate::iptables::outcome::{
    chain_exists_notice, chain_in_use_notice, interpret, ResultInterpretation,
};
use crate::iptables::rule::Rule;
use crate::iptables::writer::{
    account, creation_steps, deletion_steps, follows, log_of, passes, plan_steps, undo_steps,
    Effect, ExecutionError, Invocation, Operation, RecreatingMode, Step,
};
use crate::text::{contains_text, occurs_at, texts};

verus! {

/// Every creating action has a deletion sequence that is not empty and that
/// holds no creating action.
pub proof fn lemma_deletion_sequence_undoes(action: Action)
    ensures
        action.undo().len() > 0,
        forall|i: int|
            0 <= i < action.undo().len() ==> !AnyAction::Deletion(
                #[trigger] action.undo()[i],
            ).creates(),
{
}

/// A rule over the chains of one table stays in that table: the chain that it
/// jumps or goes to is in the table of the chain that it is attached to.
pub proof fn lemma_typed_rules_stay_in_their_table(
    in_filter: Rule<Filter>,
    in_nat: Rule<Nat>,
    in_mangle: Rule<Mangle>,
    in_raw: Rule<Raw>,
    in_security: Rule<Security>,
)
    ensures
        in_filter.same_table(),
        in_nat.same_table(),
        in_mangle.same_table(),
        in_raw.same_table(),
        in_security.same_table(),
{
}

/// A creation run takes the declared operations in the order of their
/// declaration: one step for each, which runs the operation as declared.
pub proof fn lemma_creation_follows_declaration(ops: Seq<Operation>)
    requires
        ops.len() <= usize::MAX,
    ensures
        plan_steps(ops, Effect::Creation).len() == ops.len(),
        forall|i: int|
            0 <= i < ops.len() ==> #[trigger] plan_steps(ops, Effect::Creation)[i] == (Step::Run {
                index: i as usize,
                action: ops[i].action,
            }),
{
}

/// A deletion run takes the declared operations in the reverse of the order
/// of their declaration: a later step never belongs to an operation that was
/// declared later than that of an earlier step.
pub proof fn lemma_deletion_reverses_declaration(ops: Seq<Operation>)
    requires
        ops.len() <= usize::MAX,
    ensures
        forall|i: int, j: int|
            #![trigger deletion_steps(ops)[i], deletion_steps(ops)[j]]
            0 <= i <= j < deletion_steps(ops).len() ==> deletion_steps(ops)[i].operation()
                >= deletion_steps(ops)[j].operation(),
        forall|k: int|
            0 <= k < deletion_steps(ops).len() ==> (#[trigger] deletion_steps(ops)[k]).operation()
                < ops.len(),
    decreases ops.len(),
{
    if ops.len() > 0 {
        lemma_deletion_reverses_declaration(ops.drop_last());
        let first = undo_steps(ops.last(), (ops.len() - 1) as usize);
        let rest = deletion_steps(ops.drop_last());
        let all = deletion_steps(ops);
        assert(all == first + rest);
        assert forall|k: int| 0 <= k < all.len() implies (#[trigger] all[k]).operation()
            < ops.len() && (k < first.len() ==> all[k].operation() == ops.len() - 1) && (k
            >= first.len() ==> all[k] == rest[k - first.len()]) by {
            if k < first.len() {
                assert(all[k] == first[k]);
            } else {
                assert(all[k] == rest[k - first.len()]);
            }
        }
        assert forall|i: int, j: int|
            #![trigger all[i], all[j]]
            0 <= i <= j < all.len() implies all[i].operation() >= all[j].operation() by {
            if i >= first.len() {
                assert(all[i] == rest[i - first.len()]);
                assert(all[j] == rest[j - first.len()]);
            }
        }
    }
}

/// A deletion run undoes every operation that is owned, and no other: each
/// step belongs to an owned operation, and each owned operation has a step.
pub proof fn lemma_deletion_covers_owned(ops: Seq<Operation>, at: int)
    requires
        ops.len() <= usize::MAX,
        0 <= at < ops.len(),
    ensures
        ops[at].mode == RecreatingMode::Owned <==> exists|k: int|
            0 <= k < deletion_steps(ops).len() && (#[trigger] deletion_steps(ops)[k]).operation()
                == at,
    decreases ops.len(),
{
    let first = undo_steps(ops.last(), (ops.len() - 1) as usize);
    let rest = deletion_steps(ops.drop_last());
    let all = deletion_steps(ops);
    assert(all == first + rest);
    lemma_deletion_reverses_declaration(ops.drop_last());
    if at == ops.len() - 1 {
        if ops[at].mode == RecreatingMode::Owned {
            if let AnyAction::Creation(a) = ops[at].action {
                lemma_deletion_sequence_undoes(a);
            }
            assert(first.len() > 0);
            assert(all[0] == first[0]);
            assert(all[0].operation() == at);
        } else {
            assert forall|k: int| 0 <= k < all.len() implies (#[trigger] all[k]).operation()
                != at by {
                assert(all[k] == rest[k]);
            }
        }
    } else {
        lemma_deletion_covers_owned(ops.drop_last(), at);
        assert(ops.drop_last()[at] == ops[at]);
        if ops[at].mode == RecreatingMode::Owned {
            let k = choose|k: int| 0 <= k < rest.len() && (#[trigger] rest[k]).operation() == at;
            assert(all[first.len() + k] == rest[k]);
        } else {
            assert forall|k: int| 0 <= k < all.len() implies (#[trigger] all[k]).operation()
                != at by {
                if k < first.len() {
                    assert(all[k] == first[k]);
                } else {
                    assert(all[k] == rest[k - first.len()]);
                }
            }
        }
    }
}

/// A recreation run is a deletion run followed by a creation run: its steps
/// are those of the one, then those of the other, each in its own order.
pub proof fn lemma_recreation_is_deletion_then_creation(ops: Seq<Operation>)
    ensures
        plan_steps(ops, Effect::Recreation) == plan_steps(ops, Effect::Deletion) + plan_steps(
            ops,
            Effect::Creation,
        ),
{
}

/// A recreation run that ends well is a deletion run that ends well,
/// followed by a creation run that ends well: its account, cut where the
/// deletion steps end, gives an account of each.
pub proof fn lemma_recreation_account_splits(
    base: Seq<Seq<char>>,
    ops: Seq<Operation>,
    verbose: bool,
    invocations: Seq<Invocation>,
    log: Seq<Seq<char>>,
)
    requires
        account(
            base,
            ops,
            plan_steps(ops, Effect::Recreation),
            verbose,
            invocations,
            log,
            Ok(()),
        ),
    ensures
        ({
            let cut = deletion_steps(ops).len() as int;
            let end = invocations.len() as int;
            &&& cut <= end
            &&& account(
                base,
                ops,
                plan_steps(ops, Effect::Deletion),
                verbose,
                invocations.subrange(0, cut),
                if verbose {
                    log.subrange(0, cut)
                } else {
                    log
                },
                Ok(()),
            )
            &&& account(
                base,
                ops,
                plan_steps(ops, Effect::Creation),
                verbose,
                invocations.subrange(cut, end),
                if verbose {
                    log.subrange(cut, end)
                } else {
                    log
                },
                Ok(()),
            )
        }),
{
    let whole = plan_steps(ops, Effect::Recreation);
    let undo = deletion_steps(ops);
    let create = creation_steps(ops);
    let cut = undo.len() as int;
    let end = invocations.len() as int;
    let head = invocations.subrange(0, cut);
    let tail = invocations.subrange(cut, end);
    assert forall|i: int| 0 <= i < cut implies follows(base, ops, #[trigger] undo[i], head[i])
        && passes(ops, undo[i], head[i]) by {
        assert(whole[i] == undo[i]);
    }
    assert forall|i: int| 0 <= i < end - cut implies follows(
        base,
        ops,
        #[trigger] create[i],
        tail[i],
    ) && passes(ops, create[i], tail[i]) by {
        assert(whole[cut + i] == create[i]);
    }
    if verbose {
        assert(log.subrange(0, cut) =~= log_of(head));
        assert(log.subrange(cut, end) =~= log_of(tail));
    }
}

/// Two runs of one plan in which every command succeeds leave the same
/// trace: the same commands for the same actions in the same order, the same
/// verbose output, and both end well or both do not.
pub proof fn lemma_quiet_runs_leave_one_trace(
    base: Seq<Seq<char>>,
    ops: Seq<Operation>,
    plan: Seq<Step>,
    verbose: bool,
    first: Seq<Invocation>,
    first_log: Seq<Seq<char>>,
    first_result: Result<(), ExecutionError>,
    second: Seq<Invocation>,
    second_log: Seq<Seq<char>>,
    second_result: Result<(), ExecutionError>,
)
    requires
        account(base, ops, plan, verbose, first, first_log, first_result),
        account(base, ops, plan, verbose, second, second_log, second_result),
        forall|i: int| 0 <= i < first.len() ==> (#[trigger] first[i]).status is Success,
        forall|i: int| 0 <= i < second.len() ==> (#[trigger] second[i]).status is Success,
    ensures
        first.len() == second.len(),
        forall|i: int|
            0 <= i < first.len() ==> (#[trigger] first[i]).action == second[i].action && texts(
                first[i].cmd@,
            ) == texts(second[i].cmd@),
        first_log == second_log,
        first_result is Ok <==> second_result is Ok,
{
    let n = first.len() as int;
    let m = second.len() as int;
    assert forall|i: int| 0 <= i < n implies passes(ops, #[trigger] plan[i], first[i]) by {
        assert(follows(base, ops, plan[i], first[i]));
        assert(first[i].status is Success);
    }
    assert forall|i: int| 0 <= i < m implies passes(ops, #[trigger] plan[i], second[i]) by {
        assert(follows(base, ops, plan[i], second[i]));
        assert(second[i].status is Success);
    }
    if n < m {
        assert(follows(base, ops, plan[n], second[n]));
        if n > 0 {
            assert(passes(ops, plan[n - 1], first[n - 1]));
        }
    }
    if m < n {
        assert(follows(base, ops, plan[m], first[m]));
        if m > 0 {
            assert(passes(ops, plan[m - 1], second[m - 1]));
        }
    }
    assert(n == m);
    assert forall|i: int| 0 <= i < n implies (#[trigger] first[i]).action == second[i].action
        && texts(first[i].cmd@) == texts(second[i].cmd@) by {
        assert(follows(base, ops, plan[i], first[i]));
        assert(follows(base, ops, plan[i], second[i]));
    }
    if verbose {
        assert forall|i: int| 0 <= i < n implies log_of(first)[i] == log_of(second)[i] by {
            assert(first[i].status is Success);
            assert(second[i].status is Success);
            assert(texts(first[i].cmd@) == texts(second[i].cmd@));
        }
        assert(log_of(first) =~= log_of(second));
    }
    if n > 0 {
        assert(passes(ops, plan[n - 1], first[n - 1]));
        assert(passes(ops, plan[n - 1], second[n - 1]));
    }
}

/// A chain that cannot be deleted because something still refers to it is
/// left alone: exit code 4 with the tool's notice of a busy chain means that
/// the chain is in use, after which an undoing step goes on, whoever answers
/// for the rule.
pub proof fn lemma_busy_chain_is_left(output: Seq<char>, step: DeletionAction, mode: RecreatingMode)
    requires
        contains_text(output, chain_in_use_notice()),
    ensures
        interpret(ExecutorStatus::ExitCode(4), output) == ResultInterpretation::ChainInUse,
        interpret(ExecutorStatus::ExitCode(4), output).tolerated(AnyAction::Deletion(step), mode),
{
}

/// A chain that is there already is accepted where a chain was to be
/// created: exit code 1 with the tool's notice of an existing chain means
/// that the chain exists, after which the creation of a chain goes on.
pub proof fn lemma_surviving_chain_is_accepted(output: Seq<char>, mode: RecreatingMode)
    requires
        contains_text(output, chain_exists_notice()),
    ensures
        interpret(ExecutorStatus::ExitCode(1), output)
            == ResultInterpretation::ChainAlreadyExists,
        interpret(ExecutorStatus::ExitCode(1), output).tolerated(
            AnyAction::Creation(Action::NewChain),
            mode,
        ),
{
}

/// The creation of an owned chain goes on after no other failure: whatever
/// status is not a success, and is not exit code 1 with the tool's notice of
/// an existing chain, stops the run.
pub proof fn lemma_other_failures_stop_chain_creation(status: ExecutorStatus, output: Seq<char>)
    requires
        !(status is Success),
        !(status == ExecutorStatus::ExitCode(1) && contains_text(output, chain_exists_notice())),
    ensures
        !interpret(status, output).tolerated(
            AnyAction::Creation(Action::NewChain),
            RecreatingMode::Owned,
        ),
{
}

/// Exit code 1 or 2 on the creation of something owned stops the run, with a
/// message that names the action; but for the creation of a chain that the
/// tool says is there already, which is accepted.
pub proof fn lemma_failed_creation_is_reported(
    cmd: Seq<Seq<char>>,
    code: i32,
    output: Seq<char>,
    action: Action,
)
    requires
        code == 1 || code == 2,
        !(action == Action::NewChain && code == 1 && contains_text(
            output,
            chain_exists_notice(),
        )),
    ensures
        ({
            let step = AnyAction::Creation(action);
            let status = ExecutorStatus::ExitCode(code);
            let meaning = interpret(status, output);
            &&& !meaning.tolerated(step, RecreatingMode::Owned)
            &&& meaning.complaint(step) is Some
            &&& failure_message(cmd, status, output, meaning.complaint(step)) matches Some(message)
            &&& contains_text(message, step.debug_text())
        }),
{
    let step = AnyAction::Creation(action);
    let status = ExecutorStatus::ExitCode(code);
    let meaning = interpret(status, output);
    let note = meaning.complaint(step)->0;
    let message = failure_message(cmd, status, output, meaning.complaint(step))->0;
    let name = step.debug_text();
    let lead = note.subrange(0, note.len() - name.len());
    assert(note =~= lead + name);
    let front = message.subrange(0, message.len() - output.len() - ": "@.len() - name.len());
    assert(message =~= front + name + ": "@ + output);
    assert(message.subrange(front.len() as int, (front.len() + name.len()) as int) =~= name);
    assert(occurs_at(message, name, front.len() as int));
}

} // verus!
