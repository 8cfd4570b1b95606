//! The event-producing core of a markdown parser.
//!
//! A stream-driven, backtracking state-machine runtime: source text is
//! normalized into a code sequence, a trampoline drives small state functions
//! over it to grow a flat event log, and a sub-tokenization pass resolves
//! content-bearing tokens (chains of linked chunks) by tokenizing their
//! combined slices and splicing the results back through an edit map.

pub mod codes;
pub mod event;
pub mod state;
pub mod tokenizer;
pub mod construct;
pub mod content;
pub mod edit_map;
pub mod parser;
pub mod subtokenize;

pub use codes::Code;
pub use codes::Point;
pub use codes::as_codes;
pub use event::ContentType;
pub use event::Event;
pub use event::EventType;
pub use event::TokenType;
pub use parser::ParseState;
pub use parser::parse;
pub use subtokenize::link;
pub use subtokenize::link_to;
pub use subtokenize::subtokenize;
