//! Parsers: what turns raw input into the first event of a pipeline.
use crate::event::Event;
use vstd::prelude::*;

pub mod raw;

verus! {

/// Why an input could not be turned into an event.
#[derive(Debug, Clone, Copy, PartialEq, Eq, Structural)]
pub enum ParseError {
    /// The input is not what the parser's format allows.
    Malformed,
}

/// What every parser offers. Nothing is assumed of the input's structure, nor
/// of the payload that a parser makes of it.
pub trait Parse {
    /// Turns one raw input into an event.
    fn parse(&self, msg: String) -> Result<Event, ParseError>;
}

} // verus!
