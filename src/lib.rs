//! Splits a scripted dump of database objects into one output per object.
//!
//! The library holds the parts that decide: the marker-line recognizer, the
//! naming of outputs, and the line-by-line state machine that routes each line
//! of the dump. Reading the input and writing files or archive entries is left
//! to the caller, which performs the actions the state machine hands back.

pub mod text;
pub mod kind;
pub mod marker;
pub mod paths;
pub mod splitter;
pub mod trace;
