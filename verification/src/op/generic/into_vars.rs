//! Binds several pipeline variables at once, each to the member of the event's
//! payload that has the variable's name.
use crate::errors::{Error, ErrorView};
use crate::event::{Event, EventView, Port};
use crate::op::config::{texts, texts_member, texts_setting};
use crate::op::Opable;
use crate::value::{duplicate, field, member};
use serde_json::Value;
use vstd::prelude::*;

verus! {

/// The multi-projecting operator. Its setting is the list of names, `keys`.
#[derive(Debug)]
pub struct Op {
    keys: Vec<String>,
}

impl View for Op {
    type V = Seq<Seq<char>>;

    /// The names to project.
    closed spec fn view(&self) -> Seq<Seq<char>> {
        texts(self.keys@)
    }
}

/// What a configuration yields: the names, where `keys` is an array of strings,
/// else the error that names `keys`.
pub open spec fn configured(opts: Value) -> Result<Seq<Seq<char>>, ErrorView> {
    match texts_member(opts, "keys"@) {
        Some(keys) => Ok(keys),
        None => Err(ErrorView::ConfigError { op: "into_vars"@, field: "keys"@ }),
    }
}

/// `name` is one of `keys` and the payload has a member of that name.
pub open spec fn projects(keys: Seq<Seq<char>>, payload: Value, name: Seq<char>) -> bool {
    keys.contains(name) && member(payload, name) is Some
}

/// The event after each of `keys` that names a member of the payload has been
/// bound, as a variable, to that member. Other variables keep their values.
pub open spec fn bound_all(event: EventView, keys: Seq<Seq<char>>) -> EventView {
    EventView {
        payload: event.payload,
        vars: Map::new(
            |name: Seq<char>| event.vars.contains_key(name) || projects(keys, event.payload, name),
            |name: Seq<char>|
                if projects(keys, event.payload, name) {
                    member(event.payload, name)->Some_0
                } else {
                    event.vars[name]
                },
        ),
    }
}

/// What the operator makes of `event`: one event on the primary port, with the
/// same payload and the variables bound.
pub open spec fn handles(before: Op, event: Event, after: Op, out: Seq<(Port, Event)>) -> bool {
    &&& after == before
    &&& out.len() == 1
    &&& out[0].0 == Port::Primary
    &&& out[0].1@ == bound_all(event@, before@)
}

/// One name more among the keys: it is found among them, and whatever was found
/// before still is.
proof fn lemma_one_more_key(keys: Seq<Seq<char>>, i: int)
    requires
        0 <= i < keys.len(),
    ensures
        forall|name: Seq<char>|
            keys.take(i + 1).contains(name) <==> keys.take(i).contains(name) || name == keys[i],
{
    let shorter = keys.take(i);
    let longer = keys.take(i + 1);
    assert forall|name: Seq<char>|
        longer.contains(name) <==> shorter.contains(name) || name == keys[i] by {
        if longer.contains(name) {
            let j = choose|j: int| 0 <= j < longer.len() && longer[j] == name;
            if j < i {
                assert(shorter[j] == name);
            }
        }
        if shorter.contains(name) {
            let j = choose|j: int| 0 <= j < shorter.len() && shorter[j] == name;
            assert(longer[j] == name);
        }
        if name == keys[i] {
            assert(longer[i] == name);
        }
    }
}

impl Op {
    /// Builds the operator from a configuration whose member `keys` is an array
    /// of strings.
    pub fn create(opts: &Value) -> (r: Result<Op, Error>)
        ensures
            match r {
                Ok(op) => configured(*opts) == Ok::<Seq<Seq<char>>, ErrorView>(op@),
                Err(e) => configured(*opts) == Err::<Seq<Seq<char>>, ErrorView>(e@),
            },
    {
        match texts_setting(opts, "keys") {
            Some(keys) => Ok(Op { keys }),
            None => Err(Error::config("into_vars", "keys")),
        }
    }
}

impl Opable for Op {
    open spec fn ready(&self) -> bool {
        true
    }

    fn is_ready(&self) -> (r: bool) {
        true
    }

    fn process(&mut self, event: Event) -> (out: Vec<(Port, Event)>)
        ensures
            handles(*old(self), event, *final(self), out@),
    {
        let ghost incoming = event@;
        let ghost keys = texts(self.keys@);
        let mut event = event;
        let mut i: usize = 0;
        assert(event@.vars =~= bound_all(incoming, keys.take(0)).vars);
        while i < self.keys.len()
            invariant
                i <= self.keys.len(),
                keys == texts(self.keys@),
                event@.payload == incoming.payload,
                event@.vars == bound_all(incoming, keys.take(i as int)).vars,
            decreases self.keys.len() - i,
        {
            let key = self.keys[i].as_str();
            let ghost earlier = event@;
            let found = match field(event.payload(), key) {
                Some(v) => Some(duplicate(v)),
                None => None,
            };
            event =
            match found {
                Some(v) => event.with_var(key, v),
                None => event,
            };
            proof {
                lemma_one_more_key(keys, i as int);
                assert(key@ == keys[i as int]);
                assert(event@ == crate::op::generic::into_var::bound(earlier, key@, key@));
                let before = bound_all(incoming, keys.take(i as int)).vars;
                let after = bound_all(incoming, keys.take(i + 1)).vars;
                assert forall|name: Seq<char>| #[trigger]
                    event@.vars.dom().contains(name) == after.dom().contains(name) by {
                    assert(keys.take(i + 1).contains(name) <==> keys.take(i as int).contains(name)
                        || name == keys[i as int]);
                }
                assert forall|name: Seq<char>| event@.vars.dom().contains(name) implies #[trigger]
                    event@.vars[name] == after[name] by {
                    assert(keys.take(i + 1).contains(name) <==> keys.take(i as int).contains(name)
                        || name == keys[i as int]);
                    assert(before.contains_key(name) ==> before[name] == earlier.vars[name]);
                }
                assert(event@.vars =~= after);
            }
            i += 1;
        }
        assert(keys.take(i as int) =~= keys);
        let mut out: Vec<(Port, Event)> = Vec::new();
        out.push((Port::Primary, event));
        out
    }
}

} // verus!
