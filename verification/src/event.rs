//! Events and the ports they leave an operator on.
use crate::value::{duplicate, empty_object, field, fields_of, kind, kind_of, with_field, ValueKind};
use serde_json::Value;
use vstd::prelude::*;

verus! {

/// A named output channel of an operator.
#[derive(Debug, PartialEq, Eq)]
pub enum Port {
    /// Where an operator sends what it passes on.
    Primary,
    /// Where a fan-out sends its duplicate.
    Secondary,
    /// A channel chosen by name.
    Named(String),
}

/// A [`Port`] with its name as a sequence of characters.
pub enum PortView {
    Primary,
    Secondary,
    Named(Seq<char>),
}

impl View for Port {
    type V = PortView;

    open spec fn view(&self) -> PortView {
        match self {
            Port::Primary => PortView::Primary,
            Port::Secondary => PortView::Secondary,
            Port::Named(name) => PortView::Named(name@),
        }
    }
}

/// One unit of data on its way through the pipeline: the payload that operators
/// transform, and the pipeline-scoped variables that earlier stages have bound
/// for later ones.
#[derive(Debug, PartialEq)]
pub struct Event {
    payload: Value,
    /// Always an object; its members are the variables.
    vars: Value,
}

/// What an [`Event`] stands for.
pub struct EventView {
    pub payload: Value,
    pub vars: Map<Seq<char>, Value>,
}

impl View for Event {
    type V = EventView;

    closed spec fn view(&self) -> EventView {
        EventView { payload: self.payload, vars: fields_of(self.vars) }
    }
}

impl Clone for Event {
    /// An identical duplicate.
    fn clone(&self) -> (r: Self)
        ensures
            r == *self,
    {
        proof {
            use_type_invariant(self);
        }
        Event { payload: duplicate(&self.payload), vars: duplicate(&self.vars) }
    }
}

impl Event {
    #[verifier::type_invariant]
    spec fn vars_are_an_object(self) -> bool {
        kind_of(self.vars) == ValueKind::Object
    }

    /// An event with the given payload and no variables.
    pub fn new(payload: Value) -> (e: Event)
        ensures
            e@.payload == payload,
            e@.vars == Map::<Seq<char>, Value>::empty(),
    {
        Event { payload, vars: empty_object() }
    }

    /// The payload.
    pub fn payload(&self) -> (p: &Value)
        ensures
            *p == self@.payload,
    {
        &self.payload
    }

    /// The value bound to the variable `name`, if there is one.
    pub fn var(&self, name: &str) -> (r: Option<&Value>)
        ensures
            match r {
                Some(v) => self@.vars.contains_key(name@) && *v == self@.vars[name@],
                None => !self@.vars.contains_key(name@),
            },
    {
        proof {
            use_type_invariant(self);
        }
        field(&self.vars, name)
    }

    /// The same event with the variable `name` bound to `val`, in place of what it
    /// was bound to.
    pub fn with_var(self, name: &str, val: Value) -> (e: Event)
        ensures
            e@.payload == self@.payload,
            e@.vars == self@.vars.insert(name@, val),
    {
        proof {
            use_type_invariant(&self);
        }
        Event { payload: self.payload, vars: with_field(self.vars, name, val) }
    }

    /// Stores `val` as member `name` of the payload. Only an object has members:
    /// an event with any other payload comes back unchanged, as the error.
    pub fn with_member(self, name: &str, val: Value) -> (r: Result<Event, Event>)
        ensures
            match r {
                Ok(e) => {
                    &&& kind_of(self@.payload) == ValueKind::Object
                    &&& kind_of(e@.payload) == ValueKind::Object
                    &&& fields_of(e@.payload) == fields_of(self@.payload).insert(name@, val)
                    &&& e@.vars == self@.vars
                },
                Err(e) => kind_of(self@.payload) != ValueKind::Object && e == self,
            },
    {
        proof {
            use_type_invariant(&self);
        }
        match kind(&self.payload) {
            ValueKind::Object => Ok(
                Event { payload: with_field(self.payload, name, val), vars: self.vars },
            ),
            _ => Err(self),
        }
    }
}

} // verus!
