//! A cancelable, incrementally streaming binary pattern search engine.
//!
//! `codec` renders integers into bytes in either endianness and reads them
//! back; `search` encodes typed search values into byte patterns, states
//! the haystack capability, and finds every occurrence of a pattern in a
//! buffer; `session` binds one search to a worker with a non-blocking
//! result channel and a cancellation protocol; `int_parse` parses
//! base-prefixed integer literals; `ui` and `panels` hold the pure value
//! types and panel state a driver works with; `inspector` decodes the
//! bytes at a cursor into human-readable interpretations.

pub mod codec;
pub mod search;
pub mod session;
pub mod int_parse;
pub mod ui;
pub mod panels;
pub mod inspector;
pub mod driver;
