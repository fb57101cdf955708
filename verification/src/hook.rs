//! Address-based hooks: replace a symbol in a lazily loaded module or in
//! the statically linked image, keeping the displaced routine reachable
//! through the record's slot.

use vstd::prelude::*;

use crate::attrs::{HookAttrs, HookModuleV, HookSymbolV, StaticSymbol, StaticSymbolV};
use crate::errors::CompileError;
use crate::registry::{ModuleName, ModuleNameV, RegistryCall, RegistryCallV, SymbolName, SymbolNameV};
use crate::slot::HookSlot;

verus! {

/// One declared address-based hook: the slot that will hold the displaced
/// routine's address, and the registration calls that install it.
pub struct HookBundle {
    pub slot: HookSlot,
    pub plan: Vec<RegistryCall>,
}

/// Build the record for an address-based hook declaration.
///
/// A lazily resolved (module) hook looks its symbol up by name when the
/// module loads, so it cannot be declared with an already resolved
/// address: that combination is rejected statically. Every other
/// combination issues exactly one registration call, handing the record's
/// slot over so the registry can preserve the displaced routine.
pub fn hook(attrs: &HookAttrs, replacement: u64) -> (r: Result<HookBundle, CompileError>)
    ensures
        (attrs.module@ is Lazy && attrs.symbol@ is Resolved) ==> r == Err::<
            HookBundle,
            CompileError,
        >(CompileError::LazyHookResolvedSymbol),
        !(attrs.module@ is Lazy && attrs.symbol@ is Resolved) ==> (r matches Ok(b) && {
            &&& b.slot.is_null()
            &&& b.plan@.len() == 1
            &&& match (attrs.module@, attrs.symbol@) {
                (HookModuleV::Lazy(m), HookSymbolV::Unresolved(s)) => b.plan@[0]@
                    == (RegistryCallV::ReplaceSymbol {
                    module: ModuleNameV::Named(m),
                    symbol: SymbolNameV::Named(s),
                    with_original_slot: true,
                    replacement,
                }),
                (HookModuleV::Static, HookSymbolV::Resolved(a)) => b.plan@[0]@
                    == (RegistryCallV::ReplaceStaticSymbol {
                    symbol: StaticSymbolV::Resolved(a),
                    with_original_slot: true,
                    replacement,
                }),
                (HookModuleV::Static, HookSymbolV::Unresolved(s)) => b.plan@[0]@
                    == (RegistryCallV::ReplaceStaticSymbol {
                    symbol: StaticSymbolV::Unresolved(s),
                    with_original_slot: true,
                    replacement,
                }),
                (HookModuleV::Lazy(_), HookSymbolV::Resolved(_)) => false,
            }
        }),
{
    let call = match (&attrs.module, &attrs.symbol) {
        (crate::attrs::HookModule::Lazy(_), crate::attrs::HookSymbol::Resolved(_)) => {
            return Err(CompileError::LazyHookResolvedSymbol);
        },
        (crate::attrs::HookModule::Lazy(m), crate::attrs::HookSymbol::Unresolved(s)) =>
            RegistryCall::ReplaceSymbol {
            module: ModuleName::Named(crate::bytes::clone_bytes(m)),
            symbol: SymbolName::Named(crate::bytes::clone_bytes(s)),
            with_original_slot: true,
            replacement,
        },
        (crate::attrs::HookModule::Static, crate::attrs::HookSymbol::Resolved(a)) =>
            RegistryCall::ReplaceStaticSymbol {
            symbol: StaticSymbol::Resolved(*a),
            with_original_slot: true,
            replacement,
        },
        (crate::attrs::HookModule::Static, crate::attrs::HookSymbol::Unresolved(s)) =>
            RegistryCall::ReplaceStaticSymbol {
            symbol: StaticSymbol::Unresolved(crate::bytes::clone_bytes(s)),
            with_original_slot: true,
            replacement,
        },
    };
    let mut plan: Vec<RegistryCall> = Vec::new();
    plan.push(call);
    Ok(HookBundle { slot: HookSlot::new(), plan })
}

} // verus!
