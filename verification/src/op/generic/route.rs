//! Sends each event to the port that one member of its payload names.
use crate::errors::{Error, ErrorView};
use crate::event::{Event, Port, PortView};
use crate::op::config::{text_member, text_setting, texts, texts_member, texts_setting};
use crate::op::Opable;
use crate::value::{field, text};
use serde_json::Value;
use vstd::prelude::*;

verus! {

/// The routing operator. Its settings are the member to look at, `field`, and
/// the names of the ports it may send to, `ports`.
#[derive(Debug)]
pub struct Op {
    field: String,
    ports: Vec<String>,
}

/// The settings of an [`Op`].
pub struct Settings {
    pub field: Seq<char>,
    pub ports: Seq<Seq<char>>,
}

impl View for Op {
    type V = Settings;

    closed spec fn view(&self) -> Settings {
        Settings { field: self.field@, ports: texts(self.ports@) }
    }
}

/// What a configuration yields: the settings, where `field` is a string and
/// `ports` an array of strings, else the error that names the first of the two
/// that is not.
pub open spec fn configured(opts: Value) -> Result<Settings, ErrorView> {
    match (text_member(opts, "field"@), texts_member(opts, "ports"@)) {
        (Some(field), Some(ports)) => Ok(Settings { field, ports }),
        (None, _) => Err(ErrorView::ConfigError { op: "route"@, field: "field"@ }),
        (_, None) => Err(ErrorView::ConfigError { op: "route"@, field: "ports"@ }),
    }
}

/// The port that a payload is sent to: the one that its member `field` names,
/// where that member is a string and one of `ports`; the primary port for
/// every other payload.
pub open spec fn selected(payload: Value, field: Seq<char>, ports: Seq<Seq<char>>) -> PortView {
    match text_member(payload, field) {
        Some(name) => if ports.contains(name) {
            PortView::Named(name)
        } else {
            PortView::Primary
        },
        None => PortView::Primary,
    }
}

/// What the operator makes of `event`: the event as it is, on exactly the
/// selected port.
pub open spec fn handles(before: Op, event: Event, after: Op, out: Seq<(Port, Event)>) -> bool {
    &&& after == before
    &&& out.len() == 1
    &&& out[0].0@ == selected(event@.payload, before@.field, before@.ports)
    &&& out[0].1 == event
}

/// Whether `name` is one of `names`.
pub fn listed(names: &Vec<String>, name: &String) -> (found: bool)
    ensures
        found == texts(names@).contains(name@),
{
    let mut i: usize = 0;
    while i < names.len()
        invariant
            i <= names.len(),
            forall|j: int| 0 <= j < i ==> (#[trigger] texts(names@)[j]) != name@,
        decreases names.len() - i,
    {
        if names[i] == *name {
            assert(texts(names@)[i as int] == name@);
            return true;
        }
        i += 1;
    }
    false
}

impl Op {
    /// Builds the operator from a configuration with a string member `field`
    /// and a member `ports` that is an array of strings.
    pub fn create(opts: &Value) -> (r: Result<Op, Error>)
        ensures
            match r {
                Ok(op) => configured(*opts) == Ok::<Settings, ErrorView>(op@),
                Err(e) => configured(*opts) == Err::<Settings, ErrorView>(e@),
            },
    {
        let name = match text_setting(opts, "field") {
            Some(name) => name,
            None => {
                return Err(Error::config("route", "field"));
            },
        };
        let ports = match texts_setting(opts, "ports") {
            Some(ports) => ports,
            None => {
                return Err(Error::config("route", "ports"));
            },
        };
        Ok(Op { field: name, ports })
    }
}

impl Opable for Op {
    open spec fn ready(&self) -> bool {
        true
    }

    fn is_ready(&self) -> (r: bool) {
        true
    }

    fn process(&mut self, event: Event) -> (out: Vec<(Port, Event)>)
        ensures
            handles(*old(self), event, *final(self), out@),
    {
        let named = match field(event.payload(), self.field.as_str()) {
            Some(m) => match text(m) {
                Some(s) => Some(s.to_owned()),
                None => None,
            },
            None => None,
        };
        let port = match named {
            Some(name) => if listed(&self.ports, &name) {
                Port::Named(name)
            } else {
                Port::Primary
            },
            None => Port::Primary,
        };
        let mut out: Vec<(Port, Event)> = Vec::new();
        out.push((port, event));
        out
    }
}

} // verus!
