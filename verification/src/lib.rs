//! Hook registration and script lowering for a live game process.
//!
//! The crate has four parts. Hook slots ([`slot`]) keep the address of a
//! replaced routine so that a replacement can still reach the original;
//! the central record table ([`records`]) owns one slot per declared
//! hook, behind accessors. Registration plans ([`registry`], [`hook`],
//! [`acmd`], [`status`], [`callbacks`]) turn a declared replacement into
//! the exact sequence of calls the host's hook registry must receive.
//! The animation-command compiler ([`lexer`], [`parser`], [`lower`])
//! parses the scripting mini-language and lowers each statement to
//! instructions against the script interpreter's stack machine, whose
//! observable behaviour is modelled in [`vm`]. The calling-convention
//! adapter ([`adapter`]) bridges the interpreter's callback shape to a
//! replacement routine.

pub mod acmd;
pub mod adapter;
pub mod ast;
pub mod attrs;
pub mod bytes;
pub mod callbacks;
pub mod errors;
pub mod hook;
pub mod lexer;
pub mod lower;
pub mod parser;
pub mod records;
pub mod registry;
pub mod slot;
pub mod status;
pub mod vm;
