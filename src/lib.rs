//! The command-actor bridge between a single-threaded host runtime and a
//! media-session controller owned by one worker thread.
//!
//! The library holds the protocol's decisions: the closed set of commands and
//! the normalisation of host inputs, the ordered command queue with its close
//! semantics and the one-shot result handles, the event listener's relay
//! decisions with the mapping of controller events to host records, and the
//! derivation of a device identity.  Threads, channels and the controller
//! itself live with the caller.
mod bridge;
mod command;
mod device;
mod events;
mod guarantees;
mod listener;

pub use bridge::{BridgeError, BridgeView, CommandBridge, HandleState, Message, SettleError};
pub use command::{
    backend_volume, position_from_host, select_backend, settlement_for, volume_from_host, Command,
    CommandError, Settlement, MAX_BACKEND_VOLUME, MAX_VOLUME_PERCENT,
};
pub use device::{device_id, digest_hex};
pub use events::{event_record, EventRecord, FieldValue, FieldView, PlayerEvent};
pub use guarantees::{
    lemma_abandon_settles_all, lemma_close_drains_and_settles, lemma_commands_run_in_send_order,
    lemma_nothing_pending_once_stopped, lemma_send_after_close_refused, lemma_settled_at_most_once,
};
pub use listener::{
    lemma_registration_gates_delivery, EventListener, ListenerView, RelayStep, RelayView,
};
