use crate::events::{event_record, record_of, EventRecord, FieldView, PlayerEvent};
use vstd::prelude::*;

verus! {

/// What the listener does with one item of the event stream.
#[derive(Debug)]
pub enum RelayStep {
    /// Hand this record to the registered callback.
    Deliver(EventRecord),
    /// No callback is registered: drop the event, which is no error.
    Drop,
    /// The stream has ended: the listener stops.
    Finish,
}

pub ghost enum RelayView {
    Deliver(Seq<(Seq<char>, FieldView)>),
    Drop,
    Finish,
}

impl View for RelayStep {
    type V = RelayView;

    open spec fn view(&self) -> RelayView {
        match self {
            RelayStep::Deliver(r) => RelayView::Deliver(r@),
            RelayStep::Drop => RelayView::Drop,
            RelayStep::Finish => RelayView::Finish,
        }
    }
}

pub ghost struct ListenerView {
    pub registered: bool,
    pub open: bool,
}

/// The listener takes one item of the stream; `None` means that the
/// stream has ended.
pub open spec fn relay_spec(l: ListenerView, item: Option<PlayerEvent>) -> (
    ListenerView,
    RelayView,
) {
    match item {
        None => (ListenerView { open: false, ..l }, RelayView::Finish),
        Some(e) => if !l.open {
            (l, RelayView::Finish)
        } else if l.registered {
            (l, RelayView::Deliver(record_of(e)))
        } else {
            (l, RelayView::Drop)
        },
    }
}

/// The steps taken for each of `events` in turn, from `l`.
pub open spec fn relay_all(l: ListenerView, events: Seq<PlayerEvent>) -> Seq<RelayView>
    decreases events.len(),
{
    if events.len() == 0 {
        Seq::empty()
    } else {
        seq![relay_spec(l, Some(events[0])).1] + relay_all(
            relay_spec(l, Some(events[0])).0,
            events.drop_first(),
        )
    }
}

/// The relay decisions of one session's event listener.
pub struct EventListener {
    registered: bool,
    open: bool,
}

impl View for EventListener {
    type V = ListenerView;

    closed spec fn view(&self) -> ListenerView {
        ListenerView { registered: self.registered, open: self.open }
    }
}

impl EventListener {
    /// A listener on an open stream, with no callback yet.
    pub fn new() -> (r: EventListener)
        ensures
            r@ == (ListenerView { registered: false, open: true }),
    {
        EventListener { registered: false, open: true }
    }

    /// Records that the session now has a callback; a later registration
    /// replaces the callback and keeps this state.
    pub fn register_callback(&mut self)
        ensures
            final(self)@ == (ListenerView { registered: true, ..old(self)@ }),
    {
        self.registered = true;
    }

    /// Decides what becomes of one item of the event stream.
    pub fn relay(&mut self, item: Option<PlayerEvent>) -> (r: RelayStep)
        ensures
            (final(self)@, r@) == relay_spec(old(self)@, item),
    {
        match item {
            None => {
                self.open = false;
                RelayStep::Finish
            },
            Some(e) => {
                if !self.open {
                    RelayStep::Finish
                } else if self.registered {
                    RelayStep::Deliver(event_record(e))
                } else {
                    RelayStep::Drop
                }
            },
        }
    }

    /// Whether the stream is still open.
    pub fn is_open(&self) -> (r: bool)
        ensures
            r == self@.open,
    {
        self.open
    }
}

/// Events are gated by registration: on an open stream, every event that
/// arrives before a callback is registered is dropped, and every event that
/// arrives after is delivered, in the order of the stream, as its record.
pub proof fn lemma_registration_gates_delivery(
    l: ListenerView,
    before: Seq<PlayerEvent>,
    after: Seq<PlayerEvent>,
)
    requires
        l.open,
        !l.registered,
    ensures
        relay_all(l, before) == Seq::new(before.len(), |i: int| RelayView::Drop),
        relay_all(ListenerView { registered: true, ..l }, after) == Seq::new(
            after.len(),
            |i: int| RelayView::Deliver(record_of(after[i])),
        ),
{
    lemma_relay_all_fixed(l, before);
    lemma_relay_all_fixed(ListenerView { registered: true, ..l }, after);
}

proof fn lemma_relay_all_fixed(l: ListenerView, events: Seq<PlayerEvent>)
    requires
        l.open,
    ensures
        relay_all(l, events) == Seq::new(
            events.len(),
            |i: int|
                if l.registered {
                    RelayView::Deliver(record_of(events[i]))
                } else {
                    RelayView::Drop
                },
        ),
    decreases events.len(),
{
    if events.len() > 0 {
        lemma_relay_all_fixed(l, events.drop_first());
    }
    assert(relay_all(l, events) =~= Seq::new(
        events.len(),
        |i: int|
            if l.registered {
                RelayView::Deliver(record_of(events[i]))
            } else {
                RelayView::Drop
            },
    ));
}

} // verus!
