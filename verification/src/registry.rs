//! The outward registration interface: the calls this crate asks the host
//! hook registry to perform.
//!
//! A registration plan is an ordered sequence of [`RegistryCall`] values.
//! Building the plan is this crate's job and is verified; performing it —
//! address resolution, binary patching, callback bookkeeping — belongs to
//! the registry collaborator. Category and priority values are passed
//! through untouched; their interpretation is the registry's.

use vstd::prelude::*;

use crate::ast::ExprV;
use crate::attrs::{
    AcmdCategory, Hashable, HashableV, LuaConstant, LuaConstantV, StaticSymbol, StaticSymbolV,
};

verus! {

/// The module a symbol lookup runs against.
#[derive(Debug, PartialEq, Eq)]
pub enum ModuleName {
    /// The shared agent-logic module (the host loads it under the name
    /// `common`).
    Common,
    /// A module named by the declaration.
    Named(Vec<u8>),
}

/// A symbol handed to the registry for lookup.
#[derive(Debug, PartialEq, Eq)]
pub enum SymbolName {
    /// The common module's per-fighter frame control routine
    /// (`lua2cpp::L2CFighterCommon::sys_line_system_control_fighter`).
    FighterFrameControl,
    /// The common module's per-agent frame control routine
    /// (`lua2cpp::L2CFighterBase::sys_line_system_control`).
    AgentFrameControl,
    /// A symbol named by the declaration.
    Named(Vec<u8>),
}

/// One call issued to the host hook registry. `with_original_slot` says
/// whether the issuing record's hook slot is handed over so the registry
/// can write the displaced routine's address into it; `replacement` and
/// `callback` are the addresses of the routines the registry is to invoke.
#[derive(Debug, PartialEq, Eq)]
pub enum RegistryCall {
    ReplaceSymbol {
        module: ModuleName,
        symbol: SymbolName,
        with_original_slot: bool,
        replacement: u64,
    },
    ReplaceStaticSymbol { symbol: StaticSymbol, with_original_slot: bool, replacement: u64 },
    ReplaceAcmdScript {
        agent: Hashable,
        script: Hashable,
        with_original_slot: bool,
        category: AcmdCategory,
        low_priority: bool,
        replacement: u64,
    },
    ReplaceStatusScript {
        agent: Hashable,
        status: LuaConstant,
        condition: LuaConstant,
        with_original_slot: bool,
        low_priority: bool,
        replacement: u64,
    },
    ReplaceCommonStatusScript {
        status: LuaConstant,
        condition: LuaConstant,
        with_original_slot: bool,
        replacement: u64,
    },
    ReplaceFighterFrame { agent: LuaConstant, with_original_slot: bool, replacement: u64 },
    ReplaceWeaponFrame { agent: LuaConstant, with_original_slot: bool, replacement: u64 },
    AddFighterResetCallback { callback: u64 },
    AddAgentResetCallback { callback: u64 },
    AddFighterFrameCallback { callback: u64 },
    AddWeaponFrameCallback { callback: u64 },
    AddFighterInitCallback { callback: u64 },
    AddAgentInitCallback { callback: u64 },
}

/// Mathematical view of [`ModuleName`].
pub enum ModuleNameV {
    Common,
    Named(Seq<u8>),
}

/// Mathematical view of [`SymbolName`].
pub enum SymbolNameV {
    FighterFrameControl,
    AgentFrameControl,
    Named(Seq<u8>),
}

/// Mathematical view of [`RegistryCall`].
pub enum RegistryCallV {
    ReplaceSymbol {
        module: ModuleNameV,
        symbol: SymbolNameV,
        with_original_slot: bool,
        replacement: u64,
    },
    ReplaceStaticSymbol { symbol: StaticSymbolV, with_original_slot: bool, replacement: u64 },
    ReplaceAcmdScript {
        agent: HashableV,
        script: HashableV,
        with_original_slot: bool,
        category: AcmdCategory,
        low_priority: bool,
        replacement: u64,
    },
    ReplaceStatusScript {
        agent: HashableV,
        status: LuaConstantV,
        condition: LuaConstantV,
        with_original_slot: bool,
        low_priority: bool,
        replacement: u64,
    },
    ReplaceCommonStatusScript {
        status: LuaConstantV,
        condition: LuaConstantV,
        with_original_slot: bool,
        replacement: u64,
    },
    ReplaceFighterFrame { agent: LuaConstantV, with_original_slot: bool, replacement: u64 },
    ReplaceWeaponFrame { agent: LuaConstantV, with_original_slot: bool, replacement: u64 },
    AddFighterResetCallback { callback: u64 },
    AddAgentResetCallback { callback: u64 },
    AddFighterFrameCallback { callback: u64 },
    AddWeaponFrameCallback { callback: u64 },
    AddFighterInitCallback { callback: u64 },
    AddAgentInitCallback { callback: u64 },
}

impl View for ModuleName {
    type V = ModuleNameV;

    open spec fn view(&self) -> ModuleNameV {
        match self {
            ModuleName::Common => ModuleNameV::Common,
            ModuleName::Named(s) => ModuleNameV::Named(s@),
        }
    }
}

impl View for SymbolName {
    type V = SymbolNameV;

    open spec fn view(&self) -> SymbolNameV {
        match self {
            SymbolName::FighterFrameControl => SymbolNameV::FighterFrameControl,
            SymbolName::AgentFrameControl => SymbolNameV::AgentFrameControl,
            SymbolName::Named(s) => SymbolNameV::Named(s@),
        }
    }
}

impl View for RegistryCall {
    type V = RegistryCallV;

    open spec fn view(&self) -> RegistryCallV {
        match self {
            RegistryCall::ReplaceSymbol { module, symbol, with_original_slot, replacement } =>
                RegistryCallV::ReplaceSymbol {
                    module: module@,
                    symbol: symbol@,
                    with_original_slot: *with_original_slot,
                    replacement: *replacement,
                },
            RegistryCall::ReplaceStaticSymbol { symbol, with_original_slot, replacement } =>
                RegistryCallV::ReplaceStaticSymbol {
                    symbol: symbol@,
                    with_original_slot: *with_original_slot,
                    replacement: *replacement,
                },
            RegistryCall::ReplaceAcmdScript {
                agent,
                script,
                with_original_slot,
                category,
                low_priority,
                replacement,
            } => RegistryCallV::ReplaceAcmdScript {
                agent: agent@,
                script: script@,
                with_original_slot: *with_original_slot,
                category: *category,
                low_priority: *low_priority,
                replacement: *replacement,
            },
            RegistryCall::ReplaceStatusScript {
                agent,
                status,
                condition,
                with_original_slot,
                low_priority,
                replacement,
            } => RegistryCallV::ReplaceStatusScript {
                agent: agent@,
                status: status@,
                condition: condition@,
                with_original_slot: *with_original_slot,
                low_priority: *low_priority,
                replacement: *replacement,
            },
            RegistryCall::ReplaceCommonStatusScript {
                status,
                condition,
                with_original_slot,
                replacement,
            } => RegistryCallV::ReplaceCommonStatusScript {
                status: status@,
                condition: condition@,
                with_original_slot: *with_original_slot,
                replacement: *replacement,
            },
            RegistryCall::ReplaceFighterFrame { agent, with_original_slot, replacement } =>
                RegistryCallV::ReplaceFighterFrame {
                    agent: agent@,
                    with_original_slot: *with_original_slot,
                    replacement: *replacement,
                },
            RegistryCall::ReplaceWeaponFrame { agent, with_original_slot, replacement } =>
                RegistryCallV::ReplaceWeaponFrame {
                    agent: agent@,
                    with_original_slot: *with_original_slot,
                    replacement: *replacement,
                },
            RegistryCall::AddFighterResetCallback { callback } =>
                RegistryCallV::AddFighterResetCallback { callback: *callback },
            RegistryCall::AddAgentResetCallback { callback } =>
                RegistryCallV::AddAgentResetCallback { callback: *callback },
            RegistryCall::AddFighterFrameCallback { callback } =>
                RegistryCallV::AddFighterFrameCallback { callback: *callback },
            RegistryCall::AddWeaponFrameCallback { callback } =>
                RegistryCallV::AddWeaponFrameCallback { callback: *callback },
            RegistryCall::AddFighterInitCallback { callback } =>
                RegistryCallV::AddFighterInitCallback { callback: *callback },
            RegistryCall::AddAgentInitCallback { callback } =>
                RegistryCallV::AddAgentInitCallback { callback: *callback },
        }
    }
}

} // verus!
