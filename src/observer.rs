//! The observer capability: a sink that hears of every successful command.
use vstd::prelude::*;
use crate::models::event::Event;

verus! {

/// Reacts to device events. The hub calls `on_event` once per successful
/// command, in registration order; an observer keeps its own failures to itself.
pub trait Observer {
    fn on_event(&mut self, event: &Event);
}

} // verus!
