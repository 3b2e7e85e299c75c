//! Operators: the stages of a pipeline.
//!
//! An operator is built once, by its `create`, from a configuration value: either
//! whole or, where a setting is missing or malformed, not at all. It is then
//! handed one event at a time. For each event it returns the events to pass on,
//! each with the port it leaves on: none to drop the event, one to pass it
//! along, more to fan out.
use crate::event::{Event, Port};
use vstd::prelude::*;

pub mod config;
pub mod generic;

verus! {

/// What every operator offers, whatever it does with an event.
pub trait Opable: Sized {
    /// Whether the operator can take one more event.
    spec fn ready(&self) -> bool;

    /// Tests whether the operator can take one more event.
    fn is_ready(&self) -> (r: bool)
        ensures
            r == self.ready(),
    ;

    /// Handles one event. Only the operator's own state is read and written.
    fn process(&mut self, event: Event) -> Vec<(Port, Event)>
        requires
            old(self).ready(),
    ;
}

} // verus!
