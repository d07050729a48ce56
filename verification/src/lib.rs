//! An incremental, event-driven parser for HTTP/1.x messages.
//!
//! Bytes are fed to the parser in arbitrarily sized chunks, potentially one
//! byte at a time; the parser walks an explicit per-byte state machine over
//! the request-line or status-line grammar, the header section (including
//! obsolete line folding), and one of three body framings (fixed
//! content-length, chunked transfer coding, or read-until-close).
//! Structural elements are surfaced in order as [`Event`] values to the
//! callback slots the caller has registered.
//!
//! Every observable behaviour of a parser is pinned down by a purely
//! mathematical per-byte transition function, and `laws` proves from it
//! that splitting an input stream at any byte boundary cannot change what
//! is delivered.

pub mod event;
pub mod header;
pub mod laws;
pub mod machine;
pub mod parser;
pub mod util;

pub use event::DataCallbacks;
pub use event::Event;
pub use event::NotifyCallbacks;
pub use event::ParseError;
pub use parser::HttpParser;
pub use parser::HttpParserCallbacks;
