//! Recognises function definitions in a token sequence and rewrites each one
//! so that it opens a tracing span when called; and draws the calls that such
//! spans record as a Mermaid flowchart.
//!
//! The tokens are the library's own ([`token`]). The grammar ([`grammar`])
//! says what a function, a parameter or a container is; the parsers
//! ([`parse`], [`args`]) find exactly that; [`tracer`] writes the instrumented
//! function; [`token_processors`] and [`omnibus`] apply it to everything in a
//! run of items. What holds of all of this is stated in [`fidelity`] and
//! [`laws`].

pub mod args;
pub mod combinators;
pub mod fidelity;
pub mod function_extractor;
pub mod grammar;
pub mod laws;
pub mod mermaid;
pub mod omnibus;
pub mod parse;
pub mod syntax;
pub mod token;
pub mod token_processors;
pub mod tracer;

pub use args::{FormatMode, RetArgs};
pub use mermaid::{escape_mermaid, CallNode, GroupingMode, MermaidLayer, ParamRenderMode};
pub use omnibus::trace_all_impl;
pub use token::{Delimiter, LiteralKind, Token};
pub use tracer::instrument_impl;
