//! Command-dispatch and interactive-session core of a wallet command-line
//! tool: line tokenization, command resolution, backend configuration,
//! dispatch routing, the interactive session state machine, and the
//! rendering of errors as structured text.

pub mod backend;
pub mod cli;
pub mod commands;
pub mod render;
pub mod resolver;
pub mod session;
pub mod tokenizer;
