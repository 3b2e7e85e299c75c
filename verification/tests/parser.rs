use serde_json::Value;
use tremor_core::parser::raw::Parser;
use tremor_core::event::Event;
use tremor_core::parser::{Parse, ParseError};

#[test]
fn the_raw_parser_hands_the_input_on() {
    let p = Parser::new("");
    for input in ["", "hello", "{\"a\": 1}", "  spaces \n and lines ", "ünïcödé ✓"] {
        let event = p.parse(input.to_string()).unwrap();
        assert_eq!(event.payload(), &Value::String(input.to_string()));
        assert_eq!(event.payload().as_str(), Some(input));
    }
}

#[test]
fn the_raw_parser_does_not_interpret_json() {
    let event = Parser::new("ignored").parse("[1, 2]".to_string()).unwrap();
    assert!(event.payload().is_string());
    assert_eq!(event.var("0"), None);
}

struct Strict;

impl Parse for Strict {
    fn parse(&self, msg: String) -> Result<Event, ParseError> {
        if msg.is_empty() {
            Err(ParseError::Malformed)
        } else {
            Ok(Event::new(Value::from(msg.len())))
        }
    }
}

fn first_event<P: Parse>(parser: &P, input: &str) -> Result<Event, ParseError> {
    parser.parse(input.to_string())
}

#[test]
fn any_parser_fits_the_interface() {
    assert_eq!(first_event(&Strict, ""), Err(ParseError::Malformed));
    assert_eq!(first_event(&Strict, "abc"), Ok(Event::new(Value::from(3))));
    assert_eq!(
        first_event(&Parser::new(""), "abc"),
        Ok(Event::new(Value::from("abc")))
    );
    assert_eq!(first_event(&Parser::new(""), ""), Ok(Event::new(Value::from(""))));
}
