//! A word-by-word reader for commands of the form `<subject> <verb> <arguments>`.
pub mod parse;
pub mod help;
pub mod planet;
pub mod command;
