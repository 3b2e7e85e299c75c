//! Writes a fixed value into one member of the event's payload.
use crate::errors::{Error, ErrorView};
use crate::event::{Event, Port};
use crate::op::config::{text_member, text_setting};
use crate::op::Opable;
use crate::value::{duplicate, field, fields_of, kind_of, member, ValueKind};
use serde_json::Value;
use vstd::prelude::*;

verus! {

/// The writing operator. Its settings are the member to write, `field`, and
/// the value to put there, `value`.
#[derive(Debug)]
pub struct Op {
    field: String,
    value: Value,
}

/// The settings of an [`Op`].
pub struct Settings {
    pub field: Seq<char>,
    pub value: Value,
}

impl View for Op {
    type V = Settings;

    closed spec fn view(&self) -> Settings {
        Settings { field: self.field@, value: self.value }
    }
}

/// What a configuration yields: the settings, where `field` is a string and
/// `value` is there, else the error that names the first of the two that fails.
pub open spec fn configured(opts: Value) -> Result<Settings, ErrorView> {
    match (text_member(opts, "field"@), member(opts, "value"@)) {
        (Some(field), Some(value)) => Ok(Settings { field, value }),
        (None, _) => Err(ErrorView::ConfigError { op: "set"@, field: "field"@ }),
        (_, None) => Err(ErrorView::ConfigError { op: "set"@, field: "value"@ }),
    }
}

/// What the operator makes of `event`. A payload that is an object leaves on
/// the primary port with the member written and all else as it was. Any other
/// payload has no members to write: that event is dropped.
pub open spec fn handles(before: Op, event: Event, after: Op, out: Seq<(Port, Event)>) -> bool {
    &&& after == before
    &&& if kind_of(event@.payload) == ValueKind::Object {
        &&& out.len() == 1
        &&& out[0].0 == Port::Primary
        &&& out[0].1@.vars == event@.vars
        &&& kind_of(out[0].1@.payload) == ValueKind::Object
        &&& fields_of(out[0].1@.payload) == fields_of(event@.payload).insert(
            before@.field,
            before@.value,
        )
    } else {
        out.len() == 0
    }
}

impl Op {
    /// Builds the operator from a configuration with a string member `field`
    /// and a member `value` of any shape.
    pub fn create(opts: &Value) -> (r: Result<Op, Error>)
        ensures
            match r {
                Ok(op) => configured(*opts) == Ok::<Settings, ErrorView>(op@),
                Err(e) => configured(*opts) == Err::<Settings, ErrorView>(e@),
            },
    {
        let name = match text_setting(opts, "field") {
            Some(name) => name,
            None => {
                return Err(Error::config("set", "field"));
            },
        };
        let value = match field(opts, "value") {
            Some(value) => duplicate(value),
            None => {
                return Err(Error::config("set", "value"));
            },
        };
        Ok(Op { field: name, value })
    }
}

impl Opable for Op {
    open spec fn ready(&self) -> bool {
        true
    }

    fn is_ready(&self) -> (r: bool) {
        true
    }

    fn process(&mut self, event: Event) -> (out: Vec<(Port, Event)>)
        ensures
            handles(*old(self), event, *final(self), out@),
    {
        let mut out: Vec<(Port, Event)> = Vec::new();
        match event.with_member(self.field.as_str(), duplicate(&self.value)) {
            Ok(written) => {
                out.push((Port::Primary, written));
            },
            Err(_) => {},
        }
        out
    }
}

} // verus!
