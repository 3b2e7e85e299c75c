//! Fans an event out: the event itself leaves on the primary port, an identical
//! duplicate on the secondary port.
use crate::errors::Error;
use crate::event::{Event, Port};
use crate::op::Opable;
use serde_json::Value;
use vstd::prelude::*;

verus! {

/// The copying operator. It has no settings and no state.
#[derive(Debug)]
pub struct Op {}

/// What the operator makes of `event`: the event on the primary port, then an
/// equal event on the secondary port.
pub open spec fn handles(before: Op, event: Event, after: Op, out: Seq<(Port, Event)>) -> bool {
    &&& after == before
    &&& out == seq![(Port::Primary, event), (Port::Secondary, event)]
}

impl Op {
    /// Any configuration will do: there is nothing to configure.
    pub fn create(_opts: &Value) -> (r: Result<Op, Error>)
        ensures
            r is Ok,
    {
        Ok(Op {  })
    }
}

impl Opable for Op {
    open spec fn ready(&self) -> bool {
        true
    }

    fn is_ready(&self) -> (r: bool) {
        true
    }

    fn process(&mut self, event: Event) -> (out: Vec<(Port, Event)>)
        ensures
            handles(*old(self), event, *final(self), out@),
    {
        let twin = event.clone();
        let mut out: Vec<(Port, Event)> = Vec::new();
        out.push((Port::Primary, event));
        out.push((Port::Secondary, twin));
        assert(out@ =~= seq![(Port::Primary, event), (Port::Secondary, event)]);
        out
    }
}

} // verus!
