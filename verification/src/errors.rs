//! Failure values: compile-time diagnostics for the scripting language and
//! the declaration checks, and the runtime failures of installing and of
//! reaching an original routine.

use vstd::prelude::*;

verus! {

/// A compile-time diagnostic. Malformed script input or an invalid
/// declaration aborts compilation with one of these; no partial output is
/// produced.
#[derive(Debug, PartialEq, Eq)]
pub enum CompileError {
    /// A byte that no token of the scripting language may start with,
    /// at the given byte offset.
    UnexpectedByte { at: usize },
    /// A string literal with no closing quote, starting at the given
    /// byte offset.
    UnterminatedString { at: usize },
    /// An integer literal that leaves the 64-bit range, starting at the
    /// given byte offset.
    IntegerOutOfRange { at: usize },
    /// An escape keyword not followed by a braced block, at the given
    /// byte offset.
    EscapeWithoutBlock { at: usize },
    /// An escape block whose braces never close, starting at the given
    /// byte offset.
    UnterminatedEscape { at: usize },
    /// A token that no statement of the grammar allows at its position,
    /// at the given token index.
    UnexpectedToken { at: usize },
    /// The input ended inside an unfinished statement.
    UnexpectedEnd,
    /// A call to the named builtin that requires an argument, given none.
    MissingArgument { name: Vec<u8> },
    /// A lazily resolved (module) hook declared with an already resolved
    /// symbol; only unresolved symbol names can be looked up in a module.
    LazyHookResolvedSymbol,
    /// A use of the original-routine accessor in a replacement that spans
    /// more than one script key; which original would be meant is ambiguous,
    /// so the accessor is refused statically.
    MultiKeyOriginal,
    /// A frame replacement that overrides the original must declare the
    /// interpreter value it returns.
    MissingReturnType,
}

/// Failure of an install: the registry could not resolve the target.
/// The failure is surfaced synchronously and never retried.
#[derive(Clone, Copy, Debug, PartialEq, Eq, Structural)]
pub enum InstallError {
    TargetUnresolved,
}

/// Failure of an original-routine call: the slot still holds the null
/// sentinel, so there is no address to call. The name identifies the hook.
#[derive(Debug, PartialEq, Eq)]
pub enum OriginalCallError {
    NotInMemory { hook: Vec<u8> },
}

} // verus!
