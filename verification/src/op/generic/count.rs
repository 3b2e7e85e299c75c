//! Counts the events that pass and hands each one on untouched.
use crate::errors::Error;
use crate::event::{Event, Port};
use crate::op::Opable;
use serde_json::Value;
use vstd::prelude::*;

verus! {

/// The counting operator. Its state is the number of events seen so far.
#[derive(Debug)]
pub struct Op {
    count: u64,
}

impl View for Op {
    type V = nat;

    /// The number of events that the operator has processed.
    closed spec fn view(&self) -> nat {
        self.count as nat
    }
}

/// What the operator makes of `event`: it counts one more and passes the event
/// on as it is.
pub open spec fn handles(before: Op, event: Event, after: Op, out: Seq<(Port, Event)>) -> bool {
    &&& after@ == before@ + 1
    &&& out == seq![(Port::Primary, event)]
}

impl Op {
    /// Any configuration will do. The count starts at zero.
    pub fn create(_opts: &Value) -> (r: Result<Op, Error>)
        ensures
            r matches Ok(op) && op@ == 0,
    {
        Ok(Op { count: 0 })
    }

    /// The number of events processed so far.
    pub fn count(&self) -> (n: u64)
        ensures
            n == self@,
    {
        self.count
    }
}

impl Opable for Op {
    /// The counter is a `u64`: it can take another event until it is full.
    open spec fn ready(&self) -> bool {
        self@ < u64::MAX
    }

    fn is_ready(&self) -> (r: bool) {
        self.count < u64::MAX
    }

    fn process(&mut self, event: Event) -> (out: Vec<(Port, Event)>)
        ensures
            handles(*old(self), event, *final(self), out@),
    {
        self.count = self.count + 1;
        let mut out: Vec<(Port, Event)> = Vec::new();
        out.push((Port::Primary, event));
        assert(out@ =~= seq![(Port::Primary, event)]);
        out
    }
}

} // verus!
