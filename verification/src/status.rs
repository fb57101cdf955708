//! Status-condition script replacements.

use vstd::prelude::*;

use crate::attrs::{clone_lua_constant, CommonStatusAttrs, StatusAttrs};
use crate::registry::{ModuleName, ModuleNameV, RegistryCall, RegistryCallV, SymbolName, SymbolNameV};
use crate::slot::HookSlot;

verus! {

/// One declared status-script replacement: its slot and its registration
/// calls.
pub struct StatusScriptBundle {
    pub slot: HookSlot,
    pub plan: Vec<RegistryCall>,
}

/// Build the record for a status-condition replacement on one agent:
/// exactly one registration call, the slot handed over so the displaced
/// script stays reachable, priority passed through untouched.
pub fn status_script(attrs: &StatusAttrs, replacement: u64) -> (r: StatusScriptBundle)
    ensures
        r.slot.is_null(),
        r.plan@.len() == 1,
        r.plan@[0]@ == (RegistryCallV::ReplaceStatusScript {
            agent: attrs.agent@,
            status: attrs.status@,
            condition: attrs.condition@,
            with_original_slot: true,
            low_priority: attrs.low_priority,
            replacement,
        }),
{
    let mut plan: Vec<RegistryCall> = Vec::new();
    plan.push(
        RegistryCall::ReplaceStatusScript {
            agent: crate::attrs::clone_hashable(&attrs.agent),
            status: clone_lua_constant(&attrs.status),
            condition: clone_lua_constant(&attrs.condition),
            with_original_slot: true,
            low_priority: attrs.low_priority,
            replacement,
        },
    );
    StatusScriptBundle { slot: HookSlot::new(), plan }
}

/// Build the record for a status-condition replacement shared by all
/// agents. With a non-empty symbol the replacement is first bound to that
/// symbol in the common module — the slot goes with the symbol binding,
/// and the status registration carries none — otherwise the status
/// registration alone is issued and takes the slot.
pub fn common_status_script(attrs: &CommonStatusAttrs, replacement: u64) -> (r: StatusScriptBundle)
    ensures
        r.slot.is_null(),
        attrs.has_symbol() ==> {
            &&& r.plan@.len() == 2
            &&& (attrs.symbol matches Some(sym) && r.plan@[0]@ == (RegistryCallV::ReplaceSymbol {
                module: ModuleNameV::Common,
                symbol: SymbolNameV::Named(sym@),
                with_original_slot: true,
                replacement,
            }))
            &&& r.plan@[1]@ == (RegistryCallV::ReplaceCommonStatusScript {
                status: attrs.status@,
                condition: attrs.condition@,
                with_original_slot: false,
                replacement,
            })
        },
        !attrs.has_symbol() ==> {
            &&& r.plan@.len() == 1
            &&& r.plan@[0]@ == (RegistryCallV::ReplaceCommonStatusScript {
                status: attrs.status@,
                condition: attrs.condition@,
                with_original_slot: true,
                replacement,
            })
        },
{
    let mut plan: Vec<RegistryCall> = Vec::new();
    let has_symbol = match &attrs.symbol {
        Some(sym) => sym.len() > 0,
        None => false,
    };
    if has_symbol {
        match &attrs.symbol {
            Some(sym) => {
                plan.push(
                    RegistryCall::ReplaceSymbol {
                        module: ModuleName::Common,
                        symbol: SymbolName::Named(crate::bytes::clone_bytes(sym)),
                        with_original_slot: true,
                        replacement,
                    },
                );
            },
            None => {},
        }
        plan.push(
            RegistryCall::ReplaceCommonStatusScript {
                status: clone_lua_constant(&attrs.status),
                condition: clone_lua_constant(&attrs.condition),
                with_original_slot: false,
                replacement,
            },
        );
    } else {
        plan.push(
            RegistryCall::ReplaceCommonStatusScript {
                status: clone_lua_constant(&attrs.status),
                condition: clone_lua_constant(&attrs.condition),
                with_original_slot: true,
                replacement,
            },
        );
    }
    StatusScriptBundle { slot: HookSlot::new(), plan }
}

} // verus!
