use crate::bridge::{
    abandon_spec, close_spec, next_spec, outcome, send_spec, settle_spec, BridgeError, BridgeView,
    HandleState, Message, SettleError,
};
use crate::command::Command;
use vstd::prelude::*;

verus! {

/// The state after the host sends each of `cmds` in turn.
pub open spec fn send_all(v: BridgeView, cmds: Seq<Command>) -> BridgeView
    decreases cmds.len(),
{
    if cmds.len() == 0 {
        v
    } else {
        send_spec(send_all(v, cmds.drop_last()), cmds.last()).0
    }
}

/// One round of the worker: take the next message and, for a command,
/// settle its handle with `fulfilled`.
pub open spec fn round(v: BridgeView, fulfilled: bool) -> BridgeView {
    match next_spec(v).1 {
        Some(Message::Run { ticket, command }) => settle_spec(next_spec(v).0, ticket, fulfilled).0,
        _ => next_spec(v).0,
    }
}

/// The state after one worker round per entry of `outcomes`.
pub open spec fn after_rounds(v: BridgeView, outcomes: Seq<bool>) -> BridgeView
    decreases outcomes.len(),
{
    if outcomes.len() == 0 {
        v
    } else {
        after_rounds(round(v, outcomes[0]), outcomes.drop_first())
    }
}

/// The commands that the worker runs in one round per entry of `outcomes`,
/// in the order it runs them.
pub open spec fn run_order(v: BridgeView, outcomes: Seq<bool>) -> Seq<Command>
    decreases outcomes.len(),
{
    if outcomes.len() == 0 {
        Seq::empty()
    } else {
        let rest = run_order(round(v, outcomes[0]), outcomes.drop_first());
        match next_spec(v).1 {
            Some(Message::Run { ticket, command }) => seq![command] + rest,
            _ => rest,
        }
    }
}

/// A bridge that is open and idle: nothing queued or running.
pub open spec fn open_idle(v: BridgeView) -> bool {
    &&& v.wf()
    &&& v.queued.len() == 0
    &&& v.in_flight is None
    &&& !v.close_requested
    &&& !v.stopped
}

proof fn lemma_send_all(v: BridgeView, cmds: Seq<Command>)
    requires
        v.wf(),
        !v.close_requested,
        !v.stopped,
        v.handles.len() + cmds.len() + 1 < usize::MAX,
    ensures
        send_all(v, cmds).wf(),
        send_all(v, cmds).queued == v.queued + cmds,
        send_all(v, cmds).handles.len() == v.handles.len() + cmds.len(),
        send_all(v, cmds).in_flight == v.in_flight,
        !send_all(v, cmds).close_requested,
        !send_all(v, cmds).stopped,
    decreases cmds.len(),
{
    if cmds.len() > 0 {
        let p = cmds.drop_last();
        lemma_send_all(v, p);
        let u = send_all(v, p);
        let w = send_spec(u, cmds.last()).0;
        assert(v.queued + p.push(cmds.last()) =~= (v.queued + p).push(cmds.last()));
        assert(p.push(cmds.last()) =~= cmds);
        assert forall|t: int| 0 <= t < w.handles.len() implies #[trigger] w.handles[t]
            == HandleState::Pending <==> (w.is_queued(t) || w.is_in_flight(t)) by {
            if t < u.handles.len() {
                assert(w.handles[t] == u.handles[t]);
            }
        }
    }
}

proof fn lemma_rounds(v: BridgeView, outcomes: Seq<bool>)
    requires
        v.wf(),
        v.in_flight is None,
        !v.stopped,
        outcomes.len() <= v.queued.len(),
    ensures
        run_order(v, outcomes) == v.queued.take(outcomes.len() as int),
        after_rounds(v, outcomes).wf(),
        after_rounds(v, outcomes).in_flight is None,
        !after_rounds(v, outcomes).stopped,
        after_rounds(v, outcomes).close_requested == v.close_requested,
        after_rounds(v, outcomes).queued == v.queued.skip(outcomes.len() as int),
        after_rounds(v, outcomes).handles.len() == v.handles.len(),
        forall|t: int|
            0 <= t < v.first_queued() ==> #[trigger] after_rounds(v, outcomes).handles[t]
                == v.handles[t],
        forall|i: int|
            0 <= i < outcomes.len() ==> #[trigger] after_rounds(v, outcomes).handles[v.first_queued()
                + i] == outcome(outcomes[i]),
    decreases outcomes.len(),
{
    if outcomes.len() > 0 {
        let t = v.first_queued() as u64;
        let n = next_spec(v).0;
        let w = round(v, outcomes[0]);
        assert(w == settle_spec(n, t, outcomes[0]).0);
        assert(n.handles[t as int] == HandleState::Pending);
        assert forall|s: int| 0 <= s < w.handles.len() implies #[trigger] w.handles[s]
            == HandleState::Pending <==> (w.is_queued(s) || w.is_in_flight(s)) by {
            if s != t as int {
                assert(w.handles[s] == v.handles[s]);
            }
        }
        let rest = outcomes.drop_first();
        lemma_rounds(w, rest);
        assert(v.queued.take(outcomes.len() as int) =~= seq![v.queued[0]] + w.queued.take(
            rest.len() as int,
        ));
        assert(w.queued.skip(rest.len() as int) =~= v.queued.skip(outcomes.len() as int));
        let a = after_rounds(v, outcomes);
        assert(a == after_rounds(w, rest));
        assert forall|i: int| 0 <= i < outcomes.len() implies #[trigger] a.handles[v.first_queued()
            + i] == outcome(outcomes[i]) by {
            if i > 0 {
                assert(w.first_queued() + (i - 1) == v.first_queued() + i);
                assert(rest[i - 1] == outcomes[i]);
            }
        }
    }
}

/// Commands run in the order they were sent: from an open, idle bridge, if
/// the host sends `cmds` and the worker then takes and settles one command
/// per round (each fulfilled or rejected as `outcomes` says), the commands
/// it runs are exactly `cmds`, in order, and each handle ends settled with
/// its outcome.
pub proof fn lemma_commands_run_in_send_order(
    v: BridgeView,
    cmds: Seq<Command>,
    outcomes: Seq<bool>,
)
    requires
        open_idle(v),
        outcomes.len() == cmds.len(),
        v.handles.len() + cmds.len() + 1 < usize::MAX,
    ensures
        run_order(send_all(v, cmds), outcomes) == cmds,
        forall|i: int|
            0 <= i < cmds.len() ==> #[trigger] after_rounds(send_all(v, cmds), outcomes).handles[v.handles.len()
                + i] == outcome(outcomes[i]),
{
    lemma_send_all(v, cmds);
    let u = send_all(v, cmds);
    assert(u.queued =~= cmds);
    lemma_rounds(u, outcomes);
    assert(cmds.take(cmds.len() as int) =~= cmds);
}

/// A handle is settled at most once: once settling a ticket has succeeded,
/// settling it again fails with `AlreadySettled` and changes nothing, and
/// the handle keeps the first outcome.
pub proof fn lemma_settled_at_most_once(v: BridgeView, ticket: u64, first: bool, second: bool)
    requires
        v.wf(),
        settle_spec(v, ticket, first).1 is Ok,
    ensures
        ({
            let w = settle_spec(v, ticket, first).0;
            &&& w.wf()
            &&& w.handles[ticket as int] == outcome(first)
            &&& settle_spec(w, ticket, second) == (w, Err::<(), SettleError>(
                SettleError::AlreadySettled,
            ))
        }),
{
    let w = settle_spec(v, ticket, first).0;
    assert forall|t: int| 0 <= t < w.handles.len() implies #[trigger] w.handles[t]
        == HandleState::Pending <==> (w.is_queued(t) || w.is_in_flight(t)) by {
        if t != ticket as int {
            assert(w.handles[t] == v.handles[t]);
        }
    }
}

/// A handle is settled at least once: after `close`, once the worker has
/// run and settled every command that was accepted before it, its next
/// message is `Close`, it stops, and no handle is left pending.
pub proof fn lemma_close_drains_and_settles(v: BridgeView, outcomes: Seq<bool>)
    requires
        v.wf(),
        v.in_flight is None,
        close_spec(v).1 is Ok,
        outcomes.len() == v.queued.len(),
    ensures
        ({
            let d = after_rounds(close_spec(v).0, outcomes);
            &&& run_order(close_spec(v).0, outcomes) == v.queued
            &&& next_spec(d).1 == Some(Message::Close)
            &&& next_spec(d).0.stopped
            &&& forall|t: int|
                0 <= t < d.handles.len() ==> #[trigger] next_spec(d).0.handles[t]
                    != HandleState::Pending
        }),
{
    let c = close_spec(v).0;
    lemma_rounds(c, outcomes);
    assert(v.queued.take(outcomes.len() as int) =~= v.queued);
    let d = after_rounds(c, outcomes);
    assert(d.queued.len() == 0);
    lemma_nothing_pending_once_stopped(next_spec(d).0);
}

/// Once the worker has stopped, no handle is pending.
pub proof fn lemma_nothing_pending_once_stopped(v: BridgeView)
    requires
        v.wf(),
        v.stopped,
    ensures
        forall|t: int| 0 <= t < v.handles.len() ==> #[trigger] v.handles[t] != HandleState::Pending,
{
}

/// When the worker is gone, abandoning the bridge settles every handle that
/// was pending (as rejected), keeps every other outcome, and leaves a
/// stopped, well-formed bridge.
pub proof fn lemma_abandon_settles_all(v: BridgeView)
    requires
        v.wf(),
    ensures
        abandon_spec(v).wf(),
        abandon_spec(v).stopped,
        abandon_spec(v).handles.len() == v.handles.len(),
        forall|t: int|
            0 <= t < v.handles.len() ==> #[trigger] abandon_spec(v).handles[t] == if v.handles[t]
                == HandleState::Pending {
                HandleState::Rejected
            } else {
                v.handles[t]
            },
{
}

/// After `close` no command is accepted: every send fails with
/// `QueueClosed` and leaves the bridge as it is, whatever the worker does
/// in between, since neither taking messages nor settling reopens it.
pub proof fn lemma_send_after_close_refused(v: BridgeView, c: Command, ticket: u64, fulfilled: bool)
    requires
        v.wf(),
        v.close_requested,
    ensures
        send_spec(v, c) == (v, Err::<u64, BridgeError>(BridgeError::QueueClosed)),
        next_spec(v).0.close_requested,
        settle_spec(v, ticket, fulfilled).0.close_requested,
        close_spec(v) == (v, Err::<(), BridgeError>(BridgeError::QueueClosed)),
{
}

} // verus!
