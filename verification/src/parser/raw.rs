//! The parser that does not parse: it hands the input on as it came.
use crate::event::Event;
use crate::parser::{Parse, ParseError};
use crate::value::{from_text, kind_of, text_of, ValueKind};
use serde_json::Value;
use vstd::prelude::*;

verus! {

/// The raw parser: it interprets nothing.
#[derive(Debug)]
pub struct Parser {}

impl Parser {
    /// A raw parser. It has no options: `_opts` is not looked at.
    pub fn new(_opts: &str) -> (p: Self) {
        Self {  }
    }
}

impl Parse for Parser {
    /// Wraps the input, whatever it is, as the string payload of an event
    /// without variables. This never fails.
    fn parse(&self, msg: String) -> (r: Result<Event, ParseError>)
        ensures
            r matches Ok(event) && {
                &&& kind_of(event@.payload) == ValueKind::String
                &&& text_of(event@.payload) == msg@
                &&& event@.vars == Map::<Seq<char>, Value>::empty()
            },
    {
        Ok(Event::new(from_text(msg)))
    }
}

} // verus!
