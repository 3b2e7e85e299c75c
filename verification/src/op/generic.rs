//! Generic operators, which control the flow of events and bind variables.
//!
//! The kinds are a closed set. [`Generic`] is the one handle under which a
//! pipeline holds any of them, and [`Generic::create`] the factory that picks a
//! kind by its name.
use crate::errors::{Error, ErrorView};
use crate::event::{Event, Port};
use crate::op::config::same_text;
use crate::op::Opable;
use serde_json::Value;
use vstd::prelude::*;

pub mod copy;
pub mod count;
pub mod into_var;
pub mod into_vars;
pub mod route;
pub mod set;

verus! {

/// An operator of any of the generic kinds.
#[derive(Debug)]
pub enum Generic {
    Copy(copy::Op),
    Count(count::Op),
    IntoVar(into_var::Op),
    IntoVars(into_vars::Op),
    SetField(set::Op),
    Route(route::Op),
}

/// What a [`Generic`] stands for: its kind, with the settings or the state of
/// the operator inside.
pub enum GenericView {
    Copy,
    Count(nat),
    IntoVar(into_var::Settings),
    IntoVars(Seq<Seq<char>>),
    SetField(set::Settings),
    Route(route::Settings),
}

impl View for Generic {
    type V = GenericView;

    open spec fn view(&self) -> GenericView {
        match self {
            Generic::Copy(_) => GenericView::Copy,
            Generic::Count(op) => GenericView::Count(op@),
            Generic::IntoVar(op) => GenericView::IntoVar(op@),
            Generic::IntoVars(op) => GenericView::IntoVars(op@),
            Generic::SetField(op) => GenericView::SetField(op@),
            Generic::Route(op) => GenericView::Route(op@),
        }
    }
}

/// What the factory yields for a kind name and a configuration: the operator
/// of that kind as its own `create` configures it, the configuration error of
/// that kind, or `UnknownOp` for a name that is none of the six.
pub open spec fn configured(name: Seq<char>, opts: Value) -> Result<GenericView, ErrorView> {
    if name == "copy"@ {
        Ok(GenericView::Copy)
    } else if name == "count"@ {
        Ok(GenericView::Count(0))
    } else if name == "into_var"@ {
        match into_var::configured(opts) {
            Ok(settings) => Ok(GenericView::IntoVar(settings)),
            Err(e) => Err(e),
        }
    } else if name == "into_vars"@ {
        match into_vars::configured(opts) {
            Ok(keys) => Ok(GenericView::IntoVars(keys)),
            Err(e) => Err(e),
        }
    } else if name == "set"@ {
        match set::configured(opts) {
            Ok(settings) => Ok(GenericView::SetField(settings)),
            Err(e) => Err(e),
        }
    } else if name == "route"@ {
        match route::configured(opts) {
            Ok(settings) => Ok(GenericView::Route(settings)),
            Err(e) => Err(e),
        }
    } else {
        Err(ErrorView::UnknownOp { category: "op"@, name })
    }
}

/// What an operator makes of `event`: what the operator inside makes of it.
/// The kind never changes.
pub open spec fn handles(
    before: Generic,
    event: Event,
    after: Generic,
    out: Seq<(Port, Event)>,
) -> bool {
    match (before, after) {
        (Generic::Copy(b), Generic::Copy(a)) => copy::handles(b, event, a, out),
        (Generic::Count(b), Generic::Count(a)) => count::handles(b, event, a, out),
        (Generic::IntoVar(b), Generic::IntoVar(a)) => into_var::handles(b, event, a, out),
        (Generic::IntoVars(b), Generic::IntoVars(a)) => into_vars::handles(b, event, a, out),
        (Generic::SetField(b), Generic::SetField(a)) => set::handles(b, event, a, out),
        (Generic::Route(b), Generic::Route(a)) => route::handles(b, event, a, out),
        _ => false,
    }
}

impl Generic {
    /// Builds the operator of the kind called `name` from the configuration
    /// `opts`. A name that is no kind gives `UnknownOp` with the category `op`;
    /// a configuration that the kind does not accept gives its `ConfigError`.
    pub fn create(name: &str, opts: &Value) -> (r: Result<Generic, Error>)
        ensures
            match r {
                Ok(op) => configured(name@, *opts) == Ok::<GenericView, ErrorView>(op@),
                Err(e) => configured(name@, *opts) == Err::<GenericView, ErrorView>(e@),
            },
    {
        if same_text(name, "copy") {
            Ok(Generic::Copy(copy::Op::create(opts)?))
        } else if same_text(name, "count") {
            Ok(Generic::Count(count::Op::create(opts)?))
        } else if same_text(name, "into_var") {
            Ok(Generic::IntoVar(into_var::Op::create(opts)?))
        } else if same_text(name, "into_vars") {
            Ok(Generic::IntoVars(into_vars::Op::create(opts)?))
        } else if same_text(name, "set") {
            Ok(Generic::SetField(set::Op::create(opts)?))
        } else if same_text(name, "route") {
            Ok(Generic::Route(route::Op::create(opts)?))
        } else {
            Err(Error::unknown_op("op", name))
        }
    }
}

impl Opable for Generic {
    /// An operator is ready when the operator inside is.
    open spec fn ready(&self) -> bool {
        match self {
            Generic::Copy(op) => op.ready(),
            Generic::Count(op) => op.ready(),
            Generic::IntoVar(op) => op.ready(),
            Generic::IntoVars(op) => op.ready(),
            Generic::SetField(op) => op.ready(),
            Generic::Route(op) => op.ready(),
        }
    }

    fn is_ready(&self) -> (r: bool) {
        match self {
            Generic::Copy(op) => op.is_ready(),
            Generic::Count(op) => op.is_ready(),
            Generic::IntoVar(op) => op.is_ready(),
            Generic::IntoVars(op) => op.is_ready(),
            Generic::SetField(op) => op.is_ready(),
            Generic::Route(op) => op.is_ready(),
        }
    }

    fn process(&mut self, event: Event) -> (out: Vec<(Port, Event)>)
        ensures
            handles(*old(self), event, *final(self), out@),
    {
        match self {
            Generic::Copy(op) => op.process(event),
            Generic::Count(op) => op.process(event),
            Generic::IntoVar(op) => op.process(event),
            Generic::IntoVars(op) => op.process(event),
            Generic::SetField(op) => op.process(event),
            Generic::Route(op) => op.process(event),
        }
    }
}

/// A `copy` operator can be built from any configuration, and sends every
/// event out twice: the event on the primary port, and an event equal to it on
/// the secondary port.
pub proof fn law_copy_fans_out(
    opts: Value,
    op: Generic,
    event: Event,
    after: Generic,
    out: Seq<(Port, Event)>,
)
    requires
        configured("copy"@, opts) == Ok::<GenericView, ErrorView>(op@),
        handles(op, event, after, out),
    ensures
        out.len() == 2,
        out[0] == (Port::Primary, event),
        out[1] == (Port::Secondary, event),
{
}

/// A `count` operator can be built from any configuration and starts at zero.
pub proof fn law_count_starts_at_zero(opts: Value)
    ensures
        configured("count"@, opts) == Ok::<GenericView, ErrorView>(GenericView::Count(0)),
{
    reveal_strlit("copy");
    reveal_strlit("count");
    assert("copy"@.len() == 4);
    assert("count"@.len() == 5);
}

/// A counter that has seen `n` events has seen `n + 1` after the next one, and
/// passes that event on as it came.
pub proof fn law_count_counts_each_event(
    op: Generic,
    n: nat,
    event: Event,
    after: Generic,
    out: Seq<(Port, Event)>,
)
    requires
        op@ == GenericView::Count(n),
        handles(op, event, after, out),
    ensures
        after@ == GenericView::Count(n + 1),
        out.len() == 1,
        out[0] == (Port::Primary, event),
{
}

/// A name that is none of the six kinds builds nothing: the factory reports it
/// as an unknown operator of the category `op`, whatever the configuration.
pub proof fn law_unknown_kind(name: Seq<char>, opts: Value)
    requires
        name != "copy"@,
        name != "count"@,
        name != "into_var"@,
        name != "into_vars"@,
        name != "set"@,
        name != "route"@,
    ensures
        configured(name, opts) == Err::<GenericView, ErrorView>(
            ErrorView::UnknownOp { category: "op"@, name },
        ),
{
}

} // verus!
