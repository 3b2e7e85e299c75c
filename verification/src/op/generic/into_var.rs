//! Binds a pipeline variable to one member of the event's payload.
use crate::errors::{Error, ErrorView};
use crate::event::{Event, EventView, Port};
use crate::op::config::{text_member, text_setting};
use crate::op::Opable;
use crate::value::{duplicate, field, member};
use serde_json::Value;
use vstd::prelude::*;

verus! {

/// The projecting operator. Its settings are the member to read, `key`, and the
/// variable to bind, `var`.
#[derive(Debug)]
pub struct Op {
    var: String,
    key: String,
}

/// The settings of an [`Op`].
pub struct Settings {
    pub var: Seq<char>,
    pub key: Seq<char>,
}

impl View for Op {
    type V = Settings;

    closed spec fn view(&self) -> Settings {
        Settings { var: self.var@, key: self.key@ }
    }
}

/// What a configuration yields: the settings, where `var` and `key` are both
/// strings, else the error that names the first of the two that is not.
pub open spec fn configured(opts: Value) -> Result<Settings, ErrorView> {
    match (text_member(opts, "var"@), text_member(opts, "key"@)) {
        (Some(var), Some(key)) => Ok(Settings { var, key }),
        (None, _) => Err(ErrorView::ConfigError { op: "into_var"@, field: "var"@ }),
        (_, None) => Err(ErrorView::ConfigError { op: "into_var"@, field: "key"@ }),
    }
}

/// The event after member `key` of its payload has been bound to the variable
/// `var`. Where the payload has no such member, nothing is bound.
pub open spec fn bound(event: EventView, var: Seq<char>, key: Seq<char>) -> EventView {
    match member(event.payload, key) {
        Some(v) => EventView { payload: event.payload, vars: event.vars.insert(var, v) },
        None => event,
    }
}

/// What the operator makes of `event`: one event on the primary port, with the
/// same payload and the variable bound.
pub open spec fn handles(before: Op, event: Event, after: Op, out: Seq<(Port, Event)>) -> bool {
    &&& after == before
    &&& out.len() == 1
    &&& out[0].0 == Port::Primary
    &&& out[0].1@ == bound(event@, before@.var, before@.key)
}

impl Op {
    /// Builds the operator from a configuration with the string members `var`
    /// and `key`.
    pub fn create(opts: &Value) -> (r: Result<Op, Error>)
        ensures
            match r {
                Ok(op) => configured(*opts) == Ok::<Settings, ErrorView>(op@),
                Err(e) => configured(*opts) == Err::<Settings, ErrorView>(e@),
            },
    {
        let var = match text_setting(opts, "var") {
            Some(var) => var,
            None => {
                return Err(Error::config("into_var", "var"));
            },
        };
        let key = match text_setting(opts, "key") {
            Some(key) => key,
            None => {
                return Err(Error::config("into_var", "key"));
            },
        };
        Ok(Op { var, key })
    }
}

impl Opable for Op {
    open spec fn ready(&self) -> bool {
        true
    }

    fn is_ready(&self) -> (r: bool) {
        true
    }

    fn process(&mut self, event: Event) -> (out: Vec<(Port, Event)>)
        ensures
            handles(*old(self), event, *final(self), out@),
    {
        let found = match field(event.payload(), self.key.as_str()) {
            Some(v) => Some(duplicate(v)),
            None => None,
        };
        let event = match found {
            Some(v) => event.with_var(self.var.as_str(), v),
            None => event,
        };
        let mut out: Vec<(Port, Event)> = Vec::new();
        out.push((Port::Primary, event));
        out
    }
}

} // verus!
