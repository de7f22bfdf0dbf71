//! Core of a small interactive command interpreter.
//!
//! A raw input line is tokenized by a quote- and escape-aware lexer
//! ([`parser::Parser::parse`]), split into pipeline stages and redirection
//! targets, resolved per stage to a built-in, an external executable or an
//! unknown name ([`command::Command`]), and executed stage by stage while a
//! session history records every attempted command line.
//!
//! Everything that decides or computes lives here with a contract; reading
//! lines, touching the file system and spawning processes are left to the
//! host program around this library.

pub mod command;
pub mod parser;
pub mod pipeline;
pub mod text;
