use crate::command::Command;
use vstd::prelude::*;

verus! {

/// The state of the one-shot result handle paired with a command.
#[derive(Clone, Copy, Debug, PartialEq, Eq, Structural)]
pub enum HandleState {
    Pending,
    Fulfilled,
    Rejected,
}

/// What the worker takes from the queue.
#[derive(Clone, Debug, PartialEq, Eq)]
pub enum Message {
    /// Run a command; its result handle has this ticket.
    Run { ticket: u64, command: Command },
    /// Stop: the queue is closed and drained, or the worker is gone.
    Close,
}

/// Why the host could not enqueue a command or close the queue.
#[derive(Clone, Copy, Debug, PartialEq, Eq, Structural)]
pub enum BridgeError {
    /// `close` was already called.
    QueueClosed,
    /// The worker has stopped without a `close`.
    WorkerGone,
    /// Every ticket has been handed out.
    TicketsExhausted,
}

/// Why a result handle could not be settled.
#[derive(Clone, Copy, Debug, PartialEq, Eq, Structural)]
pub enum SettleError {
    /// No command was ever given this ticket.
    UnknownTicket,
    /// The handle is already fulfilled or rejected.
    AlreadySettled,
    /// The command is still waiting in the queue.
    NotStarted,
}

/// The abstract state of a bridge.
///
/// Tickets are handed out in order from zero, one per accepted command, so
/// `handles[t]` is the handle of ticket `t`.  The commands still queued are
/// the most recent ones: `queued[i]` carries ticket `first_queued() + i`.
pub ghost struct BridgeView {
    pub queued: Seq<Command>,
    pub handles: Seq<HandleState>,
    pub in_flight: Option<u64>,
    pub close_requested: bool,
    pub stopped: bool,
}

impl BridgeView {
    /// The ticket of the command at the front of the queue.
    pub open spec fn first_queued(self) -> int {
        self.handles.len() - self.queued.len()
    }

    pub open spec fn is_queued(self, t: int) -> bool {
        self.first_queued() <= t < self.handles.len()
    }

    pub open spec fn is_in_flight(self, t: int) -> bool {
        self.in_flight == Some(t as u64)
    }

    /// Well-formedness: a handle is pending exactly while its command is
    /// queued or running; at most the command just before the queue runs;
    /// a stopped worker leaves nothing queued or running.
    pub open spec fn wf(self) -> bool {
        &&& self.queued.len() <= self.handles.len() < usize::MAX
        &&& (forall|t: int|
            0 <= t < self.handles.len() ==> (#[trigger] self.handles[t] == HandleState::Pending
                <==> (self.is_queued(t) || self.is_in_flight(t))))
        &&& (self.in_flight matches Some(t) ==> t + 1 == self.first_queued())
        &&& (self.stopped ==> self.queued.len() == 0 && self.in_flight is None)
    }

    /// A bridge with no command accepted yet.
    pub open spec fn fresh(self) -> bool {
        &&& self.queued.len() == 0
        &&& self.handles.len() == 0
        &&& self.in_flight is None
        &&& !self.close_requested
        &&& !self.stopped
    }
}

/// The host enqueues `c`.
pub open spec fn send_spec(v: BridgeView, c: Command) -> (BridgeView, Result<u64, BridgeError>) {
    if v.close_requested {
        (v, Err(BridgeError::QueueClosed))
    } else if v.stopped {
        (v, Err(BridgeError::WorkerGone))
    } else if v.handles.len() + 1 >= usize::MAX {
        (v, Err(BridgeError::TicketsExhausted))
    } else {
        (
            BridgeView {
                queued: v.queued.push(c),
                handles: v.handles.push(HandleState::Pending),
                ..v
            },
            Ok(v.handles.len() as u64),
        )
    }
}

/// The host closes the queue.
pub open spec fn close_spec(v: BridgeView) -> (BridgeView, Result<(), BridgeError>) {
    if v.close_requested || v.stopped {
        (v, Err(BridgeError::QueueClosed))
    } else {
        (BridgeView { close_requested: true, ..v }, Ok(()))
    }
}

/// The worker asks for its next message; `None` means that it must wait.
pub open spec fn next_spec(v: BridgeView) -> (BridgeView, Option<Message>) {
    if v.stopped {
        (v, Some(Message::Close))
    } else if v.in_flight is Some {
        (v, None)
    } else if v.queued.len() > 0 {
        let t = v.first_queued() as u64;
        (
            BridgeView { queued: v.queued.drop_first(), in_flight: Some(t), ..v },
            Some(Message::Run { ticket: t, command: v.queued[0] }),
        )
    } else if v.close_requested {
        (BridgeView { stopped: true, ..v }, Some(Message::Close))
    } else {
        (v, None)
    }
}

pub open spec fn outcome(fulfilled: bool) -> HandleState {
    if fulfilled {
        HandleState::Fulfilled
    } else {
        HandleState::Rejected
    }
}

/// The worker settles the handle of `ticket` once its command has run.
pub open spec fn settle_spec(v: BridgeView, ticket: u64, fulfilled: bool) -> (
    BridgeView,
    Result<(), SettleError>,
) {
    if ticket >= v.handles.len() {
        (v, Err(SettleError::UnknownTicket))
    } else if v.handles[ticket as int] != HandleState::Pending {
        (v, Err(SettleError::AlreadySettled))
    } else if v.in_flight != Some(ticket) {
        (v, Err(SettleError::NotStarted))
    } else {
        (
            BridgeView {
                handles: v.handles.update(ticket as int, outcome(fulfilled)),
                in_flight: None,
                ..v
            },
            Ok(()),
        )
    }
}

/// The worker is gone: every pending handle is rejected.
pub open spec fn abandon_spec(v: BridgeView) -> BridgeView {
    BridgeView {
        queued: Seq::empty(),
        handles: Seq::new(
            v.handles.len(),
            |t: int|
                if v.handles[t] == HandleState::Pending {
                    HandleState::Rejected
                } else {
                    v.handles[t]
                },
        ),
        in_flight: None,
        stopped: true,
        ..v
    }
}

/// The tickets that are pending in `v`, in the order their commands were
/// accepted.
pub open spec fn pending_tickets(v: BridgeView) -> Seq<u64> {
    let q = Seq::new(v.queued.len(), |i: int| (v.first_queued() + i) as u64);
    match v.in_flight {
        Some(t) => seq![t].add(q),
        None => q,
    }
}

/// The protocol state shared by the host side and the worker: the ordered
/// queue of accepted commands, the state of every result handle, and the
/// lifecycle flags.
pub struct CommandBridge {
    queued: std::collections::VecDeque<Command>,
    handles: Vec<HandleState>,
    in_flight: Option<u64>,
    close_requested: bool,
    stopped: bool,
}

impl View for CommandBridge {
    type V = BridgeView;

    closed spec fn view(&self) -> BridgeView {
        BridgeView {
            queued: self.queued@,
            handles: self.handles@,
            in_flight: self.in_flight,
            close_requested: self.close_requested,
            stopped: self.stopped,
        }
    }
}

impl CommandBridge {
    /// A bridge whose queue is open and empty.
    pub fn new() -> (r: CommandBridge)
        ensures
            r@.fresh(),
            r@.wf(),
    {
        CommandBridge {
            queued: std::collections::VecDeque::new(),
            handles: Vec::new(),
            in_flight: None,
            close_requested: false,
            stopped: false,
        }
    }

    /// Enqueues a command behind those already accepted and returns the
    /// ticket of its result handle.  Fails, changing nothing, once the
    /// queue is closed or the worker is gone.
    pub fn send(&mut self, command: Command) -> (r: Result<u64, BridgeError>)
        requires
            old(self)@.wf(),
        ensures
            final(self)@.wf(),
            (final(self)@, r) == send_spec(old(self)@, command),
    {
        if self.close_requested {
            return Err(BridgeError::QueueClosed);
        }
        if self.stopped {
            return Err(BridgeError::WorkerGone);
        }
        if self.handles.len() >= usize::MAX - 1 {
            return Err(BridgeError::TicketsExhausted);
        }
        let ticket = self.handles.len() as u64;
        self.queued.push_back(command);
        self.handles.push(HandleState::Pending);
        proof {
            let v = old(self)@;
            let w = self@;
            assert forall|t: int| 0 <= t < w.handles.len() implies #[trigger] w.handles[t]
                == HandleState::Pending <==> (w.is_queued(t) || w.is_in_flight(t)) by {
                if t < v.handles.len() {
                    assert(w.handles[t] == v.handles[t]);
                }
            }
        }
        Ok(ticket)
    }

    /// Closes the queue: commands already accepted still run, later ones
    /// are refused.  A second call fails with `QueueClosed`.
    pub fn close(&mut self) -> (r: Result<(), BridgeError>)
        requires
            old(self)@.wf(),
        ensures
            final(self)@.wf(),
            (final(self)@, r) == close_spec(old(self)@),
    {
        if self.close_requested || self.stopped {
            return Err(BridgeError::QueueClosed);
        }
        self.close_requested = true;
        Ok(())
    }

    /// The worker's next message: the command at the front of the queue,
    /// `Close` once the queue is closed and drained, or `None` while it
    /// must wait (the queue is empty, or the last command is unsettled).
    pub fn next_message(&mut self) -> (r: Option<Message>)
        requires
            old(self)@.wf(),
        ensures
            final(self)@.wf(),
            (final(self)@, r) == next_spec(old(self)@),
    {
        if self.stopped {
            return Some(Message::Close);
        }
        if self.in_flight.is_some() {
            return None;
        }
        let ghost v = self@;
        let ticket = (self.handles.len() - self.queued.len()) as u64;
        match self.queued.pop_front() {
            Some(command) => {
                self.in_flight = Some(ticket);
                proof {
                    let w = self@;
                    assert(w.queued =~= v.queued.drop_first());
                    assert forall|t: int| 0 <= t < w.handles.len() implies #[trigger] w.handles[t]
                        == HandleState::Pending <==> (w.is_queued(t) || w.is_in_flight(t)) by {
                        assert(w.handles[t] == v.handles[t]);
                    }
                }
                Some(Message::Run { ticket, command })
            },
            None => {
                if self.close_requested {
                    self.stopped = true;
                    Some(Message::Close)
                } else {
                    None
                }
            },
        }
    }

    /// Settles the handle of the running command: fulfilled, or rejected
    /// when its operation failed.  Any other ticket is refused, changing
    /// nothing, so a handle is never settled twice.
    pub fn settle(&mut self, ticket: u64, fulfilled: bool) -> (r: Result<(), SettleError>)
        requires
            old(self)@.wf(),
        ensures
            final(self)@.wf(),
            (final(self)@, r) == settle_spec(old(self)@, ticket, fulfilled),
    {
        if ticket >= self.handles.len() as u64 {
            return Err(SettleError::UnknownTicket);
        }
        let i = ticket as usize;
        if self.handles[i] != HandleState::Pending {
            return Err(SettleError::AlreadySettled);
        }
        match self.in_flight {
            Some(t) => {
                if t != ticket {
                    return Err(SettleError::NotStarted);
                }
            },
            None => {
                return Err(SettleError::NotStarted);
            },
        }
        let ghost v = self@;
        self.handles[i] = if fulfilled {
            HandleState::Fulfilled
        } else {
            HandleState::Rejected
        };
        self.in_flight = None;
        proof {
            let w = self@;
            assert(w.handles =~= v.handles.update(ticket as int, outcome(fulfilled)));
            assert forall|t: int| 0 <= t < w.handles.len() implies #[trigger] w.handles[t]
                == HandleState::Pending <==> (w.is_queued(t) || w.is_in_flight(t)) by {
                if t != ticket as int {
                    assert(w.handles[t] == v.handles[t]);
                }
            }
        }
        Ok(())
    }

    /// The worker is gone (it failed to start, or died): every pending
    /// handle is rejected, the running command's first and then the queued
    /// ones in order, and their tickets are returned in that order so the
    /// host can reject each awaiting caller.  Later sends fail.
    pub fn abandon(&mut self) -> (r: Vec<u64>)
        requires
            old(self)@.wf(),
        ensures
            final(self)@.wf(),
            final(self)@ == abandon_spec(old(self)@),
            r@ == pending_tickets(old(self)@),
    {
        let ghost v = self@;
        let mut rejected: Vec<u64> = Vec::new();
        if let Some(t) = self.in_flight {
            self.handles[t as usize] = HandleState::Rejected;
            rejected.push(t);
            self.in_flight = None;
        }
        let ghost prefix = rejected@;
        let n = self.handles.len();
        while self.queued.len() > 0
            invariant
                n == self.handles.len() == v.handles.len(),
                v.wf(),
                self.queued@.len() <= v.queued.len(),
                self.queued@ =~= v.queued.subrange(
                    v.queued.len() - self.queued@.len(),
                    v.queued.len() as int,
                ),
                self.in_flight is None,
                self.stopped == v.stopped,
                self.close_requested == v.close_requested,
                prefix == (match v.in_flight {
                    Some(t) => seq![t],
                    None => Seq::<u64>::empty(),
                }),
                rejected@ =~= prefix + Seq::new(
                    (v.queued.len() - self.queued@.len()) as nat,
                    |i: int| (v.first_queued() + i) as u64,
                ),
                forall|t: int|
                    0 <= t < n ==> #[trigger] self.handles@[t] == (if v.handles[t]
                        == HandleState::Pending && t < n - self.queued@.len() {
                        HandleState::Rejected
                    } else {
                        v.handles[t]
                    }),
            decreases self.queued.len(),
        {
            let ghost before = rejected@;
            let ghost k = v.queued.len() - self.queued@.len();
            let t = n - self.queued.len();
            self.queued.pop_front();
            self.handles[t] = HandleState::Rejected;
            rejected.push(t as u64);
            proof {
                let f = |i: int| (v.first_queued() + i) as u64;
                assert(before =~= prefix + Seq::new(k as nat, f));
                assert(Seq::new((k + 1) as nat, f) =~= Seq::new(k as nat, f).push(t as u64));
                assert(rejected@ =~= prefix + Seq::new((k + 1) as nat, f));
            }
        }
        self.stopped = true;
        proof {
            let w = self@;
            assert(w.handles =~= abandon_spec(v).handles);
            assert(w.queued =~= Seq::<Command>::empty());
            assert(rejected@ =~= pending_tickets(v));
        }
        rejected
    }

    /// The state of the handle with this ticket, if it was handed out.
    pub fn handle_state(&self, ticket: u64) -> (r: Option<HandleState>)
        ensures
            ticket < self@.handles.len() ==> r == Some(self@.handles[ticket as int]),
            ticket >= self@.handles.len() ==> r is None,
    {
        if ticket >= self.handles.len() as u64 {
            None
        } else {
            Some(self.handles[ticket as usize])
        }
    }

    /// Whether the worker has stopped.
    pub fn is_stopped(&self) -> (r: bool)
        ensures
            r == self@.stopped,
    {
        self.stopped
    }

    /// Whether `close` has been accepted.
    pub fn is_closed(&self) -> (r: bool)
        ensures
            r == self@.close_requested,
    {
        self.close_requested
    }
}

} // verus!
