pub mod errors;
pub mod event;
pub mod op;
pub mod parser;
pub mod registry;
pub mod value;
