//! Per-frame agent logic replacements and per-frame, reset and init
//! observation callbacks.

use vstd::prelude::*;

use crate::attrs::{clone_lua_constant, AgentFrameAttrs, AgentFrameCallbackAttrs};
use crate::errors::CompileError;
use crate::registry::{ModuleName, ModuleNameV, RegistryCall, RegistryCallV, SymbolName, SymbolNameV};
use crate::slot::HookSlot;

verus! {

/// One declared frame replacement: its slot, its registration calls, and
/// whether the generated replacement wraps the original — runs first and
/// then returns the original's result — rather than overriding it.
pub struct AgentFrameBundle {
    pub slot: HookSlot,
    pub plan: Vec<RegistryCall>,
    pub wraps_original: bool,
}

/// Build the record for a per-frame logic replacement.
///
/// A replacement that overrides the original must declare the interpreter
/// value it returns; without a return type the declaration is rejected.
/// With an agent the frame registry is asked directly; without one the
/// replacement binds to the common module's frame control symbol for the
/// fighter or agent line. The slot is always handed over.
pub fn agent_frame(
    attrs: &AgentFrameAttrs,
    replacement: u64,
    is_fighter: bool,
    has_return_type: bool,
) -> (r: Result<AgentFrameBundle, CompileError>)
    ensures
        (attrs.is_replace && !has_return_type) ==> r == Err::<AgentFrameBundle, CompileError>(
            CompileError::MissingReturnType,
        ),
        !(attrs.is_replace && !has_return_type) ==> (r matches Ok(b) && {
            &&& b.slot.is_null()
            &&& b.wraps_original == !attrs.is_replace
            &&& b.plan@.len() == 1
            &&& match attrs.agent {
                Some(agent) => b.plan@[0]@ == (if is_fighter {
                    RegistryCallV::ReplaceFighterFrame {
                        agent: agent@,
                        with_original_slot: true,
                        replacement,
                    }
                } else {
                    RegistryCallV::ReplaceWeaponFrame {
                        agent: agent@,
                        with_original_slot: true,
                        replacement,
                    }
                }),
                None => b.plan@[0]@ == (RegistryCallV::ReplaceSymbol {
                    module: ModuleNameV::Common,
                    symbol: if is_fighter {
                        SymbolNameV::FighterFrameControl
                    } else {
                        SymbolNameV::AgentFrameControl
                    },
                    with_original_slot: true,
                    replacement,
                }),
            }
        }),
{
    if attrs.is_replace && !has_return_type {
        return Err(CompileError::MissingReturnType);
    }
    let call = match &attrs.agent {
        Some(agent) => {
            if is_fighter {
                RegistryCall::ReplaceFighterFrame {
                    agent: clone_lua_constant(agent),
                    with_original_slot: true,
                    replacement,
                }
            } else {
                RegistryCall::ReplaceWeaponFrame {
                    agent: clone_lua_constant(agent),
                    with_original_slot: true,
                    replacement,
                }
            }
        },
        None => RegistryCall::ReplaceSymbol {
            module: ModuleName::Common,
            symbol: if is_fighter {
                SymbolName::FighterFrameControl
            } else {
                SymbolName::AgentFrameControl
            },
            with_original_slot: true,
            replacement,
        },
    };
    let mut plan: Vec<RegistryCall> = Vec::new();
    plan.push(call);
    Ok(AgentFrameBundle { slot: HookSlot::new(), plan, wraps_original: !attrs.is_replace })
}

/// [`agent_frame`] for the fighter line.
pub fn fighter_frame(attrs: &AgentFrameAttrs, replacement: u64, has_return_type: bool) -> (r:
    Result<AgentFrameBundle, CompileError>)
    ensures
        (attrs.is_replace && !has_return_type) ==> r == Err::<AgentFrameBundle, CompileError>(
            CompileError::MissingReturnType,
        ),
        !(attrs.is_replace && !has_return_type) ==> (r matches Ok(b) && {
            &&& b.slot.is_null()
            &&& b.wraps_original == !attrs.is_replace
            &&& b.plan@.len() == 1
            &&& match attrs.agent {
                Some(agent) => b.plan@[0]@ == (RegistryCallV::ReplaceFighterFrame {
                    agent: agent@,
                    with_original_slot: true,
                    replacement,
                }),
                None => b.plan@[0]@ == (RegistryCallV::ReplaceSymbol {
                    module: ModuleNameV::Common,
                    symbol: SymbolNameV::FighterFrameControl,
                    with_original_slot: true,
                    replacement,
                }),
            }
        }),
{
    agent_frame(attrs, replacement, true, has_return_type)
}

/// [`agent_frame`] for the weapon line.
pub fn weapon_frame(attrs: &AgentFrameAttrs, replacement: u64, has_return_type: bool) -> (r:
    Result<AgentFrameBundle, CompileError>)
    ensures
        (attrs.is_replace && !has_return_type) ==> r == Err::<AgentFrameBundle, CompileError>(
            CompileError::MissingReturnType,
        ),
        !(attrs.is_replace && !has_return_type) ==> (r matches Ok(b) && {
            &&& b.slot.is_null()
            &&& b.wraps_original == !attrs.is_replace
            &&& b.plan@.len() == 1
            &&& match attrs.agent {
                Some(agent) => b.plan@[0]@ == (RegistryCallV::ReplaceWeaponFrame {
                    agent: agent@,
                    with_original_slot: true,
                    replacement,
                }),
                None => b.plan@[0]@ == (RegistryCallV::ReplaceSymbol {
                    module: ModuleNameV::Common,
                    symbol: SymbolNameV::AgentFrameControl,
                    with_original_slot: true,
                    replacement,
                }),
            }
        }),
{
    agent_frame(attrs, replacement, false, has_return_type)
}

/// Register an observation callback run when an agent resets.
pub fn agent_reset(callback: u64, is_fighter: bool) -> (r: Vec<RegistryCall>)
    ensures
        r@.len() == 1,
        r@[0]@ == (if is_fighter {
            RegistryCallV::AddFighterResetCallback { callback }
        } else {
            RegistryCallV::AddAgentResetCallback { callback }
        }),
{
    let mut plan: Vec<RegistryCall> = Vec::new();
    if is_fighter {
        plan.push(RegistryCall::AddFighterResetCallback { callback });
    } else {
        plan.push(RegistryCall::AddAgentResetCallback { callback });
    }
    plan
}

/// [`agent_reset`] for the fighter line.
pub fn fighter_reset(callback: u64) -> (r: Vec<RegistryCall>)
    ensures
        r@.len() == 1,
        r@[0]@ == (RegistryCallV::AddFighterResetCallback { callback }),
{
    agent_reset(callback, true)
}

/// Register an observation callback run every frame beside an agent's own
/// logic. The callback observes only, so no slot is involved; the
/// declared parameters are accepted for symmetry with the replacements.
pub fn agent_frame_callback(
    _attrs: &AgentFrameCallbackAttrs,
    callback: u64,
    is_fighter: bool,
) -> (r: Vec<RegistryCall>)
    ensures
        r@.len() == 1,
        r@[0]@ == (if is_fighter {
            RegistryCallV::AddFighterFrameCallback { callback }
        } else {
            RegistryCallV::AddWeaponFrameCallback { callback }
        }),
{
    let mut plan: Vec<RegistryCall> = Vec::new();
    if is_fighter {
        plan.push(RegistryCall::AddFighterFrameCallback { callback });
    } else {
        plan.push(RegistryCall::AddWeaponFrameCallback { callback });
    }
    plan
}

/// [`agent_frame_callback`] for the fighter line.
pub fn fighter_frame_callback(attrs: &AgentFrameCallbackAttrs, callback: u64) -> (r: Vec<
    RegistryCall,
>)
    ensures
        r@.len() == 1,
        r@[0]@ == (RegistryCallV::AddFighterFrameCallback { callback }),
{
    agent_frame_callback(attrs, callback, true)
}

/// [`agent_frame_callback`] for the weapon line.
pub fn weapon_frame_callback(attrs: &AgentFrameCallbackAttrs, callback: u64) -> (r: Vec<
    RegistryCall,
>)
    ensures
        r@.len() == 1,
        r@[0]@ == (RegistryCallV::AddWeaponFrameCallback { callback }),
{
    agent_frame_callback(attrs, callback, false)
}

/// Register an observation callback run when an agent is created.
pub fn agent_init(callback: u64, is_fighter: bool) -> (r: Vec<RegistryCall>)
    ensures
        r@.len() == 1,
        r@[0]@ == (if is_fighter {
            RegistryCallV::AddFighterInitCallback { callback }
        } else {
            RegistryCallV::AddAgentInitCallback { callback }
        }),
{
    let mut plan: Vec<RegistryCall> = Vec::new();
    if is_fighter {
        plan.push(RegistryCall::AddFighterInitCallback { callback });
    } else {
        plan.push(RegistryCall::AddAgentInitCallback { callback });
    }
    plan
}

/// [`agent_init`] for the fighter line.
pub fn fighter_init(callback: u64) -> (r: Vec<RegistryCall>)
    ensures
        r@.len() == 1,
        r@[0]@ == (RegistryCallV::AddFighterInitCallback { callback }),
{
    agent_init(callback, true)
}

} // verus!
