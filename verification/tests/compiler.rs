use smashline::ast::{AcmdFuncCall, AcmdStatement, ArgExpr, Expr};
use smashline::errors::CompileError;
use smashline::lexer::{lex, Token};
use smashline::lower::{acmd, ConstVal, HostConst, Inst, TimingKind, VmModule};
use smashline::parser::parse;
use smashline::vm::{run, Event, VmValue};

fn compile(src: &[u8]) -> Result<Vec<Inst>, CompileError> {
    acmd(&src.to_vec())
}

#[test]
fn lexing_splits_keywords_idents_and_punctuation() {
    let toks = lex(&b"if (x) { f(1, \"s\") } else".to_vec()).unwrap();
    assert_eq!(
        toks,
        vec![
            Token::KwIf,
            Token::LParen,
            Token::Ident(b"x".to_vec()),
            Token::RParen,
            Token::LBrace,
            Token::Ident(b"f".to_vec()),
            Token::LParen,
            Token::Int(1),
            Token::Comma,
            Token::Str(b"s".to_vec()),
            Token::RParen,
            Token::RBrace,
            Token::KwElse,
        ]
    );
}

#[test]
fn lexing_captures_the_escape_block_as_one_token() {
    let toks = lex(&b"rust { a.b(); } wait".to_vec()).unwrap();
    assert_eq!(
        toks,
        vec![
            Token::HostBlock(b" a.b(); ".to_vec()),
            Token::Ident(b"wait".to_vec()),
        ]
    );
}

#[test]
fn parsing_builds_the_statement_tree() {
    let toks = lex(&b"{ mod1.f(a = 2); }".to_vec()).unwrap();
    let input = parse(&toks).unwrap();
    assert!(input.state.is_none());
    assert_eq!(
        input.block.stmts,
        vec![AcmdStatement::Call(AcmdFuncCall {
            path: vec![b"mod1".to_vec(), b"f".to_vec()],
            args: vec![ArgExpr {
                name: Some(b"a".to_vec()),
                expr: Expr::Int(2),
            }],
        })]
    );
}

#[test]
fn repeat_runs_its_body_exactly_three_times() {
    let insts = compile(b"{ repeat(3) { frame(1); wait(2); } }").unwrap();
    assert_eq!(
        insts,
        vec![Inst::Loop {
            count: Expr::Int(3),
            body: vec![
                Inst::Timing {
                    kind: TimingKind::Frame,
                    arg: Expr::Int(1),
                },
                Inst::Timing {
                    kind: TimingKind::Wait,
                    arg: Expr::Int(2),
                },
            ],
        }]
    );
    let events = run(&insts).unwrap();
    let mut expected = vec![Event::EvalCount { n: 3 }];
    for _ in 0..3 {
        expected.push(Event::TimingCall {
            kind: TimingKind::Frame,
            arg: VmValue::Int(1),
        });
        expected.push(Event::TimingCall {
            kind: TimingKind::Wait,
            arg: VmValue::Int(2),
        });
    }
    assert_eq!(events, expected);
}

#[test]
fn repeat_observes_its_count_exactly_once() {
    let insts = compile(b"{ repeat(5) { frame(1); } }").unwrap();
    let events = run(&insts).unwrap();
    let evals = events
        .iter()
        .filter(|e| matches!(e, Event::EvalCount { .. }))
        .count();
    assert_eq!(evals, 1);
    assert_eq!(events.len(), 6);
}

#[test]
fn repeat_zero_still_evaluates_the_count_once() {
    let insts = compile(b"{ repeat(0) { frame(1); } }").unwrap();
    let events = run(&insts).unwrap();
    assert_eq!(events, vec![Event::EvalCount { n: 0 }]);
}

#[test]
fn is_execute_conditional_emits_the_predicate_before_branching() {
    let insts = compile(b"{ if (is_execute) { frame(1); } else { wait(2); } }").unwrap();
    assert_eq!(
        insts,
        vec![
            Inst::ClearStack,
            Inst::FramePredicate,
            Inst::PopBool {
                bind: b"is_execute".to_vec()
            },
            Inst::Branch {
                cond: Expr::Ident(b"is_execute".to_vec()),
                then_body: vec![Inst::Timing {
                    kind: TimingKind::Frame,
                    arg: Expr::Int(1),
                }],
                else_body: vec![Inst::Timing {
                    kind: TimingKind::Wait,
                    arg: Expr::Int(2),
                }],
            },
        ]
    );
}

#[test]
fn misspelled_is_excute_gets_the_same_prelude() {
    let insts = compile(b"{ if (is_excute) { frame(1); } }").unwrap();
    assert_eq!(
        insts[..3],
        [
            Inst::ClearStack,
            Inst::FramePredicate,
            Inst::PopBool {
                bind: b"is_excute".to_vec()
            },
        ]
    );
}

#[test]
fn conditional_without_else_still_has_an_empty_else_arm() {
    let insts = compile(b"{ if (some_flag) { frame(1); } }").unwrap();
    assert_eq!(
        insts,
        vec![Inst::Branch {
            cond: Expr::Ident(b"some_flag".to_vec()),
            then_body: vec![Inst::Timing {
                kind: TimingKind::Frame,
                arg: Expr::Int(1),
            }],
            else_body: vec![],
        }]
    );
}

#[test]
fn literal_conditions_run_the_chosen_arm() {
    let insts = compile(b"{ if (true) { frame(1); } else { wait(2); } }").unwrap();
    let events = run(&insts).unwrap();
    assert_eq!(
        events,
        vec![Event::TimingCall {
            kind: TimingKind::Frame,
            arg: VmValue::Int(1),
        }]
    );
    let insts = compile(b"{ if (false) { frame(1); } else { wait(2); } }").unwrap();
    let events = run(&insts).unwrap();
    assert_eq!(
        events,
        vec![Event::TimingCall {
            kind: TimingKind::Wait,
            arg: VmValue::Int(2),
        }]
    );
}

#[test]
fn qualified_call_marshals_accessor_plus_each_argument() {
    let insts = compile(b"{ foo.bar(1, 2); }").unwrap();
    assert_eq!(
        insts,
        vec![Inst::CallModule {
            path: vec![b"foo".to_vec(), b"bar".to_vec()],
            args: vec![Expr::Int(1), Expr::Int(2)],
        }]
    );
    let events = run(&insts).unwrap();
    assert_eq!(
        events,
        vec![Event::ModuleCall {
            path: vec![b"foo".to_vec(), b"bar".to_vec()],
            args: vec![VmValue::Accessor, VmValue::Int(1), VmValue::Int(2)],
        }]
    );
}

#[test]
fn unqualified_call_uses_the_stack_convention() {
    let insts = compile(b"{ foo(1, 2); }").unwrap();
    assert_eq!(
        insts,
        vec![
            Inst::ClearStack,
            Inst::PushArg(Expr::Int(1)),
            Inst::PushArg(Expr::Int(2)),
            Inst::InvokeVm {
                module: VmModule::Animcmd,
                path: vec![b"foo".to_vec()],
            },
        ]
    );
}

#[test]
fn unqualified_reserved_name_still_uses_the_stack_convention() {
    let insts = compile(b"{ sv_foo(1, 2); }").unwrap();
    assert_eq!(
        insts,
        vec![
            Inst::ClearStack,
            Inst::PushArg(Expr::Int(1)),
            Inst::PushArg(Expr::Int(2)),
            Inst::InvokeVm {
                module: VmModule::Animcmd,
                path: vec![b"sv_foo".to_vec()],
            },
        ]
    );
}

#[test]
fn qualified_reserved_prefix_targets_the_application_module() {
    let insts = compile(b"{ sv_kinetic_energy.enable(7); }").unwrap();
    assert_eq!(
        insts,
        vec![
            Inst::ClearStack,
            Inst::PushArg(Expr::Int(7)),
            Inst::InvokeVm {
                module: VmModule::AppRoot,
                path: vec![b"sv_kinetic_energy".to_vec(), b"enable".to_vec()],
            },
        ]
    );
}

#[test]
fn named_arguments_marshal_their_expressions() {
    let insts = compile(b"{ ATTACK(x2 = 5, damage, \"hi\"); }").unwrap();
    assert_eq!(
        insts,
        vec![
            Inst::ClearStack,
            Inst::PushArg(Expr::Int(5)),
            Inst::PushArg(Expr::Ident(b"damage".to_vec())),
            Inst::PushArg(Expr::Str(b"hi".to_vec())),
            Inst::InvokeVm {
                module: VmModule::Animcmd,
                path: vec![b"ATTACK".to_vec()],
            },
        ]
    );
}

#[test]
fn legacy_compound_name_expands_from_the_table() {
    let insts = compile(b"{ game_CaptureCutCommon(); }").unwrap();
    assert_eq!(insts.len(), 1);
    match &insts[0] {
        Inst::FrameGuard { body } => {
            assert_eq!(body.len(), 17);
            assert_eq!(body[0], Inst::ClearStack);
            assert_eq!(
                body[1],
                Inst::PushConst(ConstVal::Sym(HostConst::FighterAttackAbsoluteKindCatch))
            );
            assert_eq!(body[3], Inst::PushConst(ConstVal::Num(3)));
            assert_eq!(body[11], Inst::PushConst(ConstVal::Bool(true)));
            assert_eq!(
                body[12],
                Inst::PushConst(ConstVal::Sym(HostConst::CollisionAttrNormalHash))
            );
            assert_eq!(
                body[16],
                Inst::InvokeVm {
                    module: VmModule::Animcmd,
                    path: vec![b"ATTACK_ABS".to_vec()],
                }
            );
        }
        other => panic!("expected the guarded expansion, got {:?}", other),
    }
    // The guard depends on the live interpreter's frame state, so the
    // trace model declines to run it.
    assert_eq!(run(&insts), None);
}

#[test]
fn state_expression_derives_the_handles_once() {
    let insts = compile(b"lua_state, { frame(1); }").unwrap();
    assert_eq!(
        insts,
        vec![
            Inst::Setup {
                state: Expr::Ident(b"lua_state".to_vec())
            },
            Inst::Timing {
                kind: TimingKind::Frame,
                arg: Expr::Int(1),
            },
        ]
    );
}

#[test]
fn escape_block_is_spliced_verbatim() {
    let insts = compile(b"{ rust { let x = compute(); } frame(1); }").unwrap();
    assert_eq!(
        insts,
        vec![
            Inst::Host {
                src: b" let x = compute(); ".to_vec()
            },
            Inst::Timing {
                kind: TimingKind::Frame,
                arg: Expr::Int(1),
            },
        ]
    );
}

#[test]
fn escape_block_keeps_nested_braces_balanced() {
    let insts = compile(b"{ rust { if a { b(); } } }").unwrap();
    assert_eq!(
        insts,
        vec![Inst::Host {
            src: b" if a { b(); } ".to_vec()
        }]
    );
}

#[test]
fn empty_block_compiles_to_nothing() {
    assert_eq!(compile(b"{}").unwrap(), vec![]);
    assert_eq!(run(&vec![]).unwrap(), vec![]);
}

#[test]
fn statement_order_is_preserved() {
    let insts = compile(b"{ frame(1); wait(2); frame(3); }").unwrap();
    assert_eq!(
        insts,
        vec![
            Inst::Timing {
                kind: TimingKind::Frame,
                arg: Expr::Int(1),
            },
            Inst::Timing {
                kind: TimingKind::Wait,
                arg: Expr::Int(2),
            },
            Inst::Timing {
                kind: TimingKind::Frame,
                arg: Expr::Int(3),
            },
        ]
    );
}

#[test]
fn timing_builtins_require_their_argument() {
    assert_eq!(
        compile(b"{ frame(); }").err(),
        Some(CompileError::MissingArgument {
            name: b"frame".to_vec()
        })
    );
    assert_eq!(
        compile(b"{ wait(); }").err(),
        Some(CompileError::MissingArgument {
            name: b"wait".to_vec()
        })
    );
}

#[test]
fn lexical_errors_name_their_position() {
    assert_eq!(
        compile(b"{ @ }").err(),
        Some(CompileError::UnexpectedByte { at: 2 })
    );
    assert_eq!(
        compile(b"{ f(\"abc) }").err(),
        Some(CompileError::UnterminatedString { at: 4 })
    );
    assert_eq!(
        compile(b"{ f(99999999999999999999); }").err(),
        Some(CompileError::IntegerOutOfRange { at: 4 })
    );
    assert_eq!(
        compile(b"{ rust never }").err(),
        Some(CompileError::EscapeWithoutBlock { at: 7 })
    );
    assert_eq!(
        compile(b"{ rust { oops").err(),
        Some(CompileError::UnterminatedEscape { at: 7 })
    );
}

#[test]
fn grammar_errors_name_the_offending_token() {
    assert_eq!(
        compile(b"{ 5 }").err(),
        Some(CompileError::UnexpectedToken { at: 1 })
    );
    assert_eq!(compile(b"{ frame(1); ").err(), Some(CompileError::UnexpectedEnd));
}

#[test]
fn malformed_statements_abort_compilation() {
    assert!(compile(b"").is_err());
    assert!(compile(b"{ if (1) }").is_err());
    assert!(compile(b"{ repeat(2) frame(1); }").is_err());
    assert!(compile(b"{ foo(1,; }").is_err());
    assert!(compile(b"{ frame(1); } trailing").is_err());
    assert!(compile(b"{ foo.(1); }").is_err());
}

#[test]
fn big_integer_literals_fit_to_the_limit() {
    let insts = compile(b"{ f(18446744073709551615); }").unwrap();
    assert_eq!(
        insts[1],
        Inst::PushArg(Expr::Int(18446744073709551615))
    );
    assert!(compile(b"{ f(18446744073709551616); }").is_err());
}

#[test]
fn nested_loops_multiply_their_bodies() {
    let insts = compile(b"{ repeat(2) { repeat(3) { wait(1); } } }").unwrap();
    let events = run(&insts).unwrap();
    // one outer count, then per outer iteration one inner count and
    // three waits
    assert_eq!(events.len(), 1 + 2 * (1 + 3));
    assert_eq!(events[0], Event::EvalCount { n: 2 });
    let evals = events
        .iter()
        .filter(|e| matches!(e, Event::EvalCount { .. }))
        .count();
    assert_eq!(evals, 3);
}
