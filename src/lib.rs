//! Host-side logic for embedding a JavaScript engine: deciding when REPL input
//! is complete, classifying script arguments and call paths, the channel
//! adapters that script code calls into, and the text of the reports shown to
//! the user.

pub mod adapter;
pub mod input;
pub mod report;
pub mod script;
pub mod text;
