use smashline::acmd::acmd_script;
use smashline::attrs::{
    AcmdAttrs, AcmdCategory, AgentFrameAttrs, AgentFrameCallbackAttrs, CommonStatusAttrs,
    Hashable, HookAttrs, HookModule, HookSymbol, LuaConstant, StatusAttrs, StaticSymbol,
};
use smashline::callbacks::{
    agent_frame, agent_frame_callback, agent_init, agent_reset, fighter_frame,
    fighter_frame_callback, fighter_init, fighter_reset, weapon_frame, weapon_frame_callback,
};
use smashline::errors::CompileError;
use smashline::hook::hook;
use smashline::registry::{ModuleName, RegistryCall, SymbolName};
use smashline::status::{common_status_script, status_script};

fn game_attrs(scripts: Vec<Hashable>) -> AcmdAttrs {
    AcmdAttrs {
        agent: Hashable::Literal(b"mario".to_vec()),
        scripts,
        category: AcmdCategory::ACMD_GAME,
        low_priority: false,
    }
}

#[test]
fn single_key_script_registers_exactly_once_with_its_slot() {
    let attrs = game_attrs(vec![Hashable::Literal(b"game_attackairn".to_vec())]);
    let bundle = acmd_script(&attrs, 0x4242);
    assert_eq!(
        bundle.plan,
        vec![RegistryCall::ReplaceAcmdScript {
            agent: Hashable::Literal(b"mario".to_vec()),
            script: Hashable::Literal(b"game_attackairn".to_vec()),
            with_original_slot: true,
            category: AcmdCategory::ACMD_GAME,
            low_priority: false,
            replacement: 0x4242,
        }]
    );
    assert!(bundle.slot.holds_null());
    assert!(bundle.original_accessor().is_ok());
}

#[test]
fn multi_key_script_registers_each_key_without_a_slot() {
    let attrs = game_attrs(vec![
        Hashable::Literal(b"game_attackairn".to_vec()),
        Hashable::Constant(b"GAME_ATTACK_AIR_F".to_vec()),
        Hashable::Literal(b"game_attackairb".to_vec()),
    ]);
    let bundle = acmd_script(&attrs, 0x77);
    assert_eq!(bundle.plan.len(), 3);
    for (i, call) in bundle.plan.iter().enumerate() {
        match call {
            RegistryCall::ReplaceAcmdScript {
                agent,
                script,
                with_original_slot,
                category,
                low_priority,
                replacement,
            } => {
                assert_eq!(agent, &Hashable::Literal(b"mario".to_vec()));
                assert_eq!(script, &attrs.scripts[i]);
                assert!(!with_original_slot);
                assert_eq!(category, &AcmdCategory::ACMD_GAME);
                assert!(!low_priority);
                assert_eq!(*replacement, 0x77);
            }
            other => panic!("unexpected registration: {:?}", other),
        }
    }
}

#[test]
fn multi_key_original_use_is_rejected_statically() {
    let two = game_attrs(vec![
        Hashable::Literal(b"game_attackairn".to_vec()),
        Hashable::Literal(b"game_attackairb".to_vec()),
    ]);
    let bundle = acmd_script(&two, 1);
    assert_eq!(
        bundle.original_accessor().err(),
        Some(CompileError::MultiKeyOriginal)
    );

    let many = game_attrs(vec![
        Hashable::Constant(b"A".to_vec()),
        Hashable::Constant(b"B".to_vec()),
        Hashable::Constant(b"C".to_vec()),
        Hashable::Constant(b"D".to_vec()),
    ]);
    let bundle = acmd_script(&many, 1);
    assert_eq!(
        bundle.original_accessor().err(),
        Some(CompileError::MultiKeyOriginal)
    );
}

#[test]
fn low_priority_and_category_pass_through_untouched() {
    let attrs = AcmdAttrs {
        agent: Hashable::Constant(b"WEAPON_KIND_MARIO_FIREBALL".to_vec()),
        scripts: vec![Hashable::Literal(b"effect_regular".to_vec())],
        category: AcmdCategory::ACMD_EFFECT,
        low_priority: true,
    };
    let bundle = acmd_script(&attrs, 9);
    match &bundle.plan[0] {
        RegistryCall::ReplaceAcmdScript {
            category,
            low_priority,
            ..
        } => {
            assert_eq!(category, &AcmdCategory::ACMD_EFFECT);
            assert!(*low_priority);
        }
        other => panic!("unexpected registration: {:?}", other),
    }
}

#[test]
fn lazy_hook_with_symbol_name_registers_through_the_module() {
    let attrs = HookAttrs {
        module: HookModule::Lazy(b"common".to_vec()),
        symbol: HookSymbol::Unresolved(b"_ZN3lib8routineEv".to_vec()),
    };
    let bundle = hook(&attrs, 0xaa).unwrap();
    assert!(bundle.slot.holds_null());
    assert_eq!(
        bundle.plan,
        vec![RegistryCall::ReplaceSymbol {
            module: ModuleName::Named(b"common".to_vec()),
            symbol: SymbolName::Named(b"_ZN3lib8routineEv".to_vec()),
            with_original_slot: true,
            replacement: 0xaa,
        }]
    );
}

#[test]
fn lazy_hook_with_resolved_symbol_is_rejected() {
    let attrs = HookAttrs {
        module: HookModule::Lazy(b"common".to_vec()),
        symbol: HookSymbol::Resolved(0x123456),
    };
    assert_eq!(
        hook(&attrs, 0xaa).err(),
        Some(CompileError::LazyHookResolvedSymbol)
    );
}

#[test]
fn static_hooks_register_resolved_or_unresolved_symbols() {
    let resolved = HookAttrs {
        module: HookModule::Static,
        symbol: HookSymbol::Resolved(0x910c40),
    };
    let bundle = hook(&resolved, 0x1).unwrap();
    assert_eq!(
        bundle.plan,
        vec![RegistryCall::ReplaceStaticSymbol {
            symbol: StaticSymbol::Resolved(0x910c40),
            with_original_slot: true,
            replacement: 0x1,
        }]
    );

    let unresolved = HookAttrs {
        module: HookModule::Static,
        symbol: HookSymbol::Unresolved(b"_ZN3app6updateEv".to_vec()),
    };
    let bundle = hook(&unresolved, 0x2).unwrap();
    assert_eq!(
        bundle.plan,
        vec![RegistryCall::ReplaceStaticSymbol {
            symbol: StaticSymbol::Unresolved(b"_ZN3app6updateEv".to_vec()),
            with_original_slot: true,
            replacement: 0x2,
        }]
    );
}

#[test]
fn status_script_registers_once_with_its_slot() {
    let attrs = StatusAttrs {
        agent: Hashable::Literal(b"mario".to_vec()),
        status: LuaConstant::Symbolic(b"FIGHTER_STATUS_KIND_SPECIAL_N".to_vec()),
        condition: LuaConstant::Evaluated(2),
        low_priority: false,
    };
    let bundle = status_script(&attrs, 0x33);
    assert!(bundle.slot.holds_null());
    assert_eq!(
        bundle.plan,
        vec![RegistryCall::ReplaceStatusScript {
            agent: Hashable::Literal(b"mario".to_vec()),
            status: LuaConstant::Symbolic(b"FIGHTER_STATUS_KIND_SPECIAL_N".to_vec()),
            condition: LuaConstant::Evaluated(2),
            with_original_slot: true,
            low_priority: false,
            replacement: 0x33,
        }]
    );
}

#[test]
fn common_status_without_symbol_registers_once() {
    let attrs = CommonStatusAttrs {
        status: LuaConstant::Evaluated(1),
        condition: LuaConstant::Evaluated(2),
        symbol: None,
    };
    let bundle = common_status_script(&attrs, 5);
    assert_eq!(
        bundle.plan,
        vec![RegistryCall::ReplaceCommonStatusScript {
            status: LuaConstant::Evaluated(1),
            condition: LuaConstant::Evaluated(2),
            with_original_slot: true,
            replacement: 5,
        }]
    );

    let empty = CommonStatusAttrs {
        status: LuaConstant::Evaluated(1),
        condition: LuaConstant::Evaluated(2),
        symbol: Some(Vec::new()),
    };
    let bundle = common_status_script(&empty, 5);
    assert_eq!(bundle.plan.len(), 1);
}

#[test]
fn common_status_with_symbol_binds_the_symbol_first() {
    let attrs = CommonStatusAttrs {
        status: LuaConstant::Symbolic(b"FIGHTER_STATUS_KIND_DAMAGE".to_vec()),
        condition: LuaConstant::Evaluated(0),
        symbol: Some(b"_ZN7lua2cpp6statusEv".to_vec()),
    };
    let bundle = common_status_script(&attrs, 6);
    assert_eq!(
        bundle.plan,
        vec![
            RegistryCall::ReplaceSymbol {
                module: ModuleName::Common,
                symbol: SymbolName::Named(b"_ZN7lua2cpp6statusEv".to_vec()),
                with_original_slot: true,
                replacement: 6,
            },
            RegistryCall::ReplaceCommonStatusScript {
                status: LuaConstant::Symbolic(b"FIGHTER_STATUS_KIND_DAMAGE".to_vec()),
                condition: LuaConstant::Evaluated(0),
                with_original_slot: false,
                replacement: 6,
            },
        ]
    );
}

#[test]
fn frame_replacement_for_one_agent_uses_the_frame_registry() {
    let attrs = AgentFrameAttrs {
        agent: Some(LuaConstant::Symbolic(b"FIGHTER_KIND_MARIO".to_vec())),
        on_main: false,
        is_replace: false,
    };
    let bundle = fighter_frame(&attrs, 0x51, true).unwrap();
    assert!(bundle.wraps_original);
    assert_eq!(
        bundle.plan,
        vec![RegistryCall::ReplaceFighterFrame {
            agent: LuaConstant::Symbolic(b"FIGHTER_KIND_MARIO".to_vec()),
            with_original_slot: true,
            replacement: 0x51,
        }]
    );

    let bundle = weapon_frame(&attrs, 0x52, true).unwrap();
    assert_eq!(
        bundle.plan,
        vec![RegistryCall::ReplaceWeaponFrame {
            agent: LuaConstant::Symbolic(b"FIGHTER_KIND_MARIO".to_vec()),
            with_original_slot: true,
            replacement: 0x52,
        }]
    );
}

#[test]
fn global_frame_replacement_binds_the_common_control_symbol() {
    let attrs = AgentFrameAttrs {
        agent: None,
        on_main: false,
        is_replace: true,
    };
    let bundle = agent_frame(&attrs, 0x61, true, true).unwrap();
    assert!(!bundle.wraps_original);
    assert_eq!(
        bundle.plan,
        vec![RegistryCall::ReplaceSymbol {
            module: ModuleName::Common,
            symbol: SymbolName::FighterFrameControl,
            with_original_slot: true,
            replacement: 0x61,
        }]
    );

    let bundle = agent_frame(&attrs, 0x62, false, true).unwrap();
    assert_eq!(
        bundle.plan,
        vec![RegistryCall::ReplaceSymbol {
            module: ModuleName::Common,
            symbol: SymbolName::AgentFrameControl,
            with_original_slot: true,
            replacement: 0x62,
        }]
    );
}

#[test]
fn overriding_frame_replacement_must_declare_its_return_type() {
    let attrs = AgentFrameAttrs {
        agent: None,
        on_main: false,
        is_replace: true,
    };
    assert_eq!(
        agent_frame(&attrs, 0x61, true, false).err(),
        Some(CompileError::MissingReturnType)
    );
}

#[test]
fn observation_callbacks_register_by_line() {
    assert_eq!(
        fighter_reset(0x70),
        vec![RegistryCall::AddFighterResetCallback { callback: 0x70 }]
    );
    assert_eq!(
        agent_reset(0x71, false),
        vec![RegistryCall::AddAgentResetCallback { callback: 0x71 }]
    );
    let cb = AgentFrameCallbackAttrs { on_main: false };
    assert_eq!(
        fighter_frame_callback(&cb, 0x72),
        vec![RegistryCall::AddFighterFrameCallback { callback: 0x72 }]
    );
    assert_eq!(
        weapon_frame_callback(&cb, 0x73),
        vec![RegistryCall::AddWeaponFrameCallback { callback: 0x73 }]
    );
    assert_eq!(
        agent_frame_callback(&cb, 0x74, true),
        vec![RegistryCall::AddFighterFrameCallback { callback: 0x74 }]
    );
    assert_eq!(
        fighter_init(0x75),
        vec![RegistryCall::AddFighterInitCallback { callback: 0x75 }]
    );
    assert_eq!(
        agent_init(0x76, false),
        vec![RegistryCall::AddAgentInitCallback { callback: 0x76 }]
    );
}
