//! Animation-command script replacements.
//!
//! One declared replacement yields one record — one slot — however many
//! script keys it covers. A single-key record hands its slot to the
//! registry and may reach the original script; a record spanning several
//! keys registers every key against the same record but statically forbids
//! the original accessor, because which of the displaced scripts would be
//! meant is unspecified.

use vstd::prelude::*;

use crate::attrs::{clone_hashable, AcmdAttrs};
use crate::errors::CompileError;
use crate::registry::{RegistryCall, RegistryCallV};
use crate::slot::HookSlot;

verus! {

/// One declared script replacement: its slot, its registration calls,
/// and whether the original accessor was granted.
pub struct AcmdScriptBundle {
    pub slot: HookSlot,
    pub plan: Vec<RegistryCall>,
    pub original_enabled: bool,
}

impl AcmdScriptBundle {
    /// The original accessor: granted exactly when the record was built
    /// from a single script key. A record spanning several keys is
    /// refused here, at compile time of the replacement, never at run
    /// time.
    pub fn original_accessor(&self) -> (r: Result<&HookSlot, CompileError>)
        ensures
            self.original_enabled ==> (r matches Ok(s) && s@ == self.slot@),
            !self.original_enabled ==> r == Err::<&HookSlot, CompileError>(
                CompileError::MultiKeyOriginal,
            ),
    {
        if self.original_enabled {
            Ok(&self.slot)
        } else {
            Err(CompileError::MultiKeyOriginal)
        }
    }
}

/// Build the record for an animation-command script replacement: one
/// registration call per declared script key, all referencing the same
/// record, the slot handed over exactly when the record has one key, and
/// category and priority passed through untouched.
pub fn acmd_script(attrs: &AcmdAttrs, replacement: u64) -> (r: AcmdScriptBundle)
    requires
        attrs.wf(),
    ensures
        r.slot.is_null(),
        r.original_enabled == attrs.can_call_original(),
        r.plan@.len() == attrs.scripts@.len(),
        forall|i: int|
            0 <= i < attrs.scripts@.len() ==> #[trigger] r.plan@[i]@
                == (RegistryCallV::ReplaceAcmdScript {
                agent: attrs.agent@,
                script: attrs.scripts@[i]@,
                with_original_slot: attrs.can_call_original(),
                category: attrs.category,
                low_priority: attrs.low_priority,
                replacement,
            }),
{
    let can_call_original = attrs.scripts.len() == 1;
    let mut plan: Vec<RegistryCall> = Vec::new();
    let mut i: usize = 0;
    while i < attrs.scripts.len()
        invariant
            i <= attrs.scripts@.len(),
            plan@.len() == i,
            can_call_original == attrs.can_call_original(),
            forall|j: int|
                0 <= j < i ==> #[trigger] plan@[j]@ == (RegistryCallV::ReplaceAcmdScript {
                    agent: attrs.agent@,
                    script: attrs.scripts@[j]@,
                    with_original_slot: attrs.can_call_original(),
                    category: attrs.category,
                    low_priority: attrs.low_priority,
                    replacement,
                }),
        decreases attrs.scripts@.len() - i,
    {
        plan.push(
            RegistryCall::ReplaceAcmdScript {
                agent: clone_hashable(&attrs.agent),
                script: clone_hashable(&attrs.scripts[i]),
                with_original_slot: can_call_original,
                category: attrs.category,
                low_priority: attrs.low_priority,
                replacement,
            },
        );
        i = i + 1;
    }
    AcmdScriptBundle { slot: HookSlot::new(), plan, original_enabled: can_call_original }
}

/// A replacement declared against two or more script keys never grants
/// the original accessor, whichever keys are listed.
pub proof fn lemma_multi_key_forbids_original(attrs: AcmdAttrs)
    requires
        attrs.scripts@.len() >= 2,
    ensures
        !attrs.can_call_original(),
{
}

} // verus!
