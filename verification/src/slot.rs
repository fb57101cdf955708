//! Hook slots and the trampoline to an original routine.
//!
//! A slot is single-assignment storage for the address of the routine a
//! hook replaced. It is created holding the null sentinel, written by a
//! successful install with whatever address the host registry returned,
//! and read by every later original-routine call. Reading a slot that
//! still holds the sentinel is a hard failure that names the hook: it is
//! never a silently wrong address.

use vstd::prelude::*;

use crate::errors::{InstallError, OriginalCallError};

verus! {

/// The slot value that means "no original routine is in memory".
pub const NULL_ORIGINAL: u64 = 0;

/// What the host registry answered when asked to redirect a target.
#[derive(Clone, Copy, Debug, PartialEq, Eq, Structural)]
pub enum InstallAnswer {
    /// The redirection was performed; the payload is the address of the
    /// routine previously in place, or the registry's not-present marker
    /// ([`NULL_ORIGINAL`]) when there was none.
    Replaced(u64),
    /// The target could not be resolved; nothing was patched.
    Unresolved,
}

/// A typed request to invoke the original routine: the address the slot
/// preserved together with the argument words, in the parameter shape
/// declared at registration time. The host performs the actual transfer.
#[derive(Debug, PartialEq, Eq)]
pub struct Invocation {
    pub routine: u64,
    pub args: Vec<u64>,
}

/// Single-assignment storage for an original routine's address.
pub struct HookSlot {
    addr: u64,
}

impl View for HookSlot {
    type V = u64;

    closed spec fn view(&self) -> u64 {
        self.addr
    }
}

impl HookSlot {
    /// Whether the slot still holds the null sentinel.
    pub open spec fn is_null(&self) -> bool {
        self@ == NULL_ORIGINAL
    }

    /// A fresh slot; before any install it holds the null sentinel.
    pub fn new() -> (s: Self)
        ensures
            s.is_null(),
    {
        HookSlot { addr: NULL_ORIGINAL }
    }

    /// Runtime check of [`HookSlot::is_null`].
    pub fn holds_null(&self) -> (r: bool)
        ensures
            r == self.is_null(),
    {
        self.addr == NULL_ORIGINAL
    }

    /// Record the registry's answer for this slot's hook. On a performed
    /// redirection the slot takes exactly the address the registry
    /// returned; an unresolved target is propagated as a failure and
    /// leaves the slot unchanged.
    pub fn install(&mut self, answer: InstallAnswer) -> (r: Result<(), InstallError>)
        ensures
            match answer {
                InstallAnswer::Replaced(original) => {
                    &&& r is Ok
                    &&& final(self)@ == original
                },
                InstallAnswer::Unresolved => {
                    &&& r == Err::<(), InstallError>(InstallError::TargetUnresolved)
                    &&& final(self)@ == old(self)@
                },
            },
    {
        match answer {
            InstallAnswer::Replaced(original) => {
                self.addr = original;
                Ok(())
            },
            InstallAnswer::Unresolved => Err(InstallError::TargetUnresolved),
        }
    }

    /// The trampoline. On a written slot, reconstruct the callable view of
    /// the preserved routine with the given argument words; on a slot that
    /// still holds the null sentinel, fail and name the hook. Never
    /// mutates the slot.
    pub fn call_original(&self, hook: &Vec<u8>, args: Vec<u64>) -> (r: Result<
        Invocation,
        OriginalCallError,
    >)
        ensures
            self.is_null() ==> (r matches Err(OriginalCallError::NotInMemory { hook: h })
                && h@ == hook@),
            !self.is_null() ==> (r matches Ok(inv) && inv.routine == self@ && inv.args@ == args@),
    {
        if self.addr == NULL_ORIGINAL {
            Err(OriginalCallError::NotInMemory { hook: crate::bytes::clone_bytes(hook) })
        } else {
            Ok(Invocation { routine: self.addr, args })
        }
    }
}

} // verus!
