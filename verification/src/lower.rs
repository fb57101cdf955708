//! Lowering: from the statement tree to instructions against the script
//! interpreter.
//!
//! Each statement lowers to a sequence of [`Inst`] values. A function
//! call is lowered by the shape of its name: the two builtin timing
//! calls, one legacy compound name expanded from a lookup table, the
//! interpreter's stack convention for unqualified names and for
//! qualified names under the reserved `sv_` prefix, and the native
//! convention — an implicit leading module-accessor argument — for every
//! other qualified name. The lowering rules are defined by the
//! specification functions (`lowered_call`, `lowered_stmt`, ...); the
//! executable pass is proved to produce exactly what they describe.

use vstd::prelude::*;

use crate::ast::{
    view_args, view_stmts, AcmdBlock, AcmdFuncCall, AcmdInput, AcmdStatement, ArgExpr, ArgV,
    BlockV, CallV, Expr, ExprV, InputV, StmtV,
};
use crate::bytes::{bytes_eq, clone_bytes, has_prefix, is_prefix};
use crate::errors::CompileError;

verus! {

/// The two builtin timing calls.
#[derive(Clone, Copy, Debug, PartialEq, Eq, Structural)]
pub enum TimingKind {
    /// Advance to an absolute frame.
    Frame,
    /// Wait a number of frames.
    Wait,
}

/// Constants of the host that the legacy expansion pushes; each is
/// resolved by the host when the lowered script runs.
#[derive(Clone, Copy, Debug, PartialEq, Eq, Structural)]
pub enum HostConst {
    /// The attack-kind constant `FIGHTER_ATTACK_ABSOLUTE_KIND_CATCH`.
    FighterAttackAbsoluteKindCatch,
    /// The direction-check constant `ATTACK_LR_CHECK_F`.
    AttackLrCheckF,
    /// The sound-level constant `ATTACK_SOUND_LEVEL_S`.
    AttackSoundLevelS,
    /// The collision-sound constant `COLLISION_SOUND_ATTR_KICK`.
    CollisionSoundAttrKick,
    /// The attack-region constant `ATTACK_REGION_NONE`.
    AttackRegionNone,
    /// The hash of the literal string `collision_attr_normal`.
    CollisionAttrNormalHash,
}

/// A literal value pushed by the legacy expansion.
#[derive(Clone, Copy, Debug, PartialEq, Eq, Structural)]
pub enum ConstVal {
    /// An integer value.
    Int(u64),
    /// An interpreter number with the given integral value; the
    /// interpreter stores numbers in floating point.
    Num(u64),
    /// A boolean value.
    Bool(bool),
    /// A host-resolved constant.
    Sym(HostConst),
}

/// The interpreter module an invocation targets.
#[derive(Clone, Copy, Debug, PartialEq, Eq, Structural)]
pub enum VmModule {
    /// The animation-command module (the host names it `sv_animcmd`).
    Animcmd,
    /// The application-binding root module the reserved-prefix calls
    /// live in.
    AppRoot,
}

/// One lowered instruction against the script interpreter.
#[derive(Debug, PartialEq, Eq)]
pub enum Inst {
    /// Clear the interpreter's argument stack.
    ClearStack,
    /// Evaluate the expression, convert it through the interpreter's
    /// generic value conversion, and push it.
    PushArg(Expr),
    /// Push a literal value from the expansion table.
    PushConst(ConstVal),
    /// Invoke the named interpreter entry point; arguments are whatever
    /// the stack holds.
    InvokeVm { module: VmModule, path: Vec<Vec<u8>> },
    /// One builtin timing call; its argument is coerced to the
    /// interpreter's floating-point number type.
    Timing { kind: TimingKind, arg: Expr },
    /// Native convention: call the path directly, passing the block's
    /// module accessor as an implicit leading argument, then each
    /// argument individually converted.
    CallModule { path: Vec<Vec<u8>>, args: Vec<Expr> },
    /// Invoke the interpreter's frame-reached predicate; its boolean
    /// result is left on the stack.
    FramePredicate,
    /// Pop a boolean off the stack and rebind the named variable to it.
    PopBool { bind: Vec<u8> },
    /// Run the body only once the current frame has reached the target
    /// frame.
    FrameGuard { body: Vec<Inst> },
    /// Branch on the condition; both arms are always structurally
    /// present.
    Branch { cond: Expr, then_body: Vec<Inst>, else_body: Vec<Inst> },
    /// Evaluate the count once, then run the body that many times.
    Loop { count: Expr, body: Vec<Inst> },
    /// Host statements spliced through untranslated.
    Host { src: Vec<u8> },
    /// Derive the block's handles from the interpreter state: the
    /// argument-stack handle, the raw interpreter-state handle and the
    /// module accessor.
    Setup { state: Expr },
}

/// Mathematical view of [`Inst`].
pub enum InstV {
    ClearStack,
    PushArg(ExprV),
    PushConst(ConstVal),
    InvokeVm { module: VmModule, path: Seq<Seq<u8>> },
    Timing { kind: TimingKind, arg: ExprV },
    CallModule { path: Seq<Seq<u8>>, args: Seq<ExprV> },
    FramePredicate,
    PopBool { bind: Seq<u8> },
    FrameGuard { body: Seq<InstV> },
    Branch { cond: ExprV, then_body: Seq<InstV>, else_body: Seq<InstV> },
    Loop { count: ExprV, body: Seq<InstV> },
    Host { src: Seq<u8> },
    Setup { state: ExprV },
}

pub open spec fn view_inst(i: Inst) -> InstV
    decreases i,
{
    match i {
        Inst::ClearStack => InstV::ClearStack,
        Inst::PushArg(e) => InstV::PushArg(crate::ast::view_expr(e)),
        Inst::PushConst(c) => InstV::PushConst(c),
        Inst::InvokeVm { module, path } => InstV::InvokeVm {
            module,
            path: crate::ast::view_segs(path@),
        },
        Inst::Timing { kind, arg } => InstV::Timing { kind, arg: crate::ast::view_expr(arg) },
        Inst::CallModule { path, args } => InstV::CallModule {
            path: crate::ast::view_segs(path@),
            args: view_exprs(args@),
        },
        Inst::FramePredicate => InstV::FramePredicate,
        Inst::PopBool { bind } => InstV::PopBool { bind: bind@ },
        Inst::FrameGuard { body } => InstV::FrameGuard { body: view_insts(body@) },
        Inst::Branch { cond, then_body, else_body } => InstV::Branch {
            cond: crate::ast::view_expr(cond),
            then_body: view_insts(then_body@),
            else_body: view_insts(else_body@),
        },
        Inst::Loop { count, body } => InstV::Loop {
            count: crate::ast::view_expr(count),
            body: view_insts(body@),
        },
        Inst::Host { src } => InstV::Host { src: src@ },
        Inst::Setup { state } => InstV::Setup { state: crate::ast::view_expr(state) },
    }
}

/// The views of an expression list, in order.
pub open spec fn view_exprs(es: Seq<Expr>) -> Seq<ExprV> {
    es.map(|i: int, e: Expr| crate::ast::view_expr(e))
}

pub open spec fn view_insts(is: Seq<Inst>) -> Seq<InstV>
    decreases is,
{
    if is.len() == 0 {
        Seq::empty()
    } else {
        seq![view_inst(is[0])] + view_insts(is.drop_first())
    }
}

/// `view_insts` maps the sequence elementwise.
pub proof fn lemma_view_insts(is: Seq<Inst>)
    ensures
        view_insts(is).len() == is.len(),
        forall|i: int| 0 <= i < is.len() ==> #[trigger] view_insts(is)[i] == view_inst(is[i]),
    decreases is,
{
    if is.len() != 0 {
        lemma_view_insts(is.drop_first());
    }
}

impl View for Inst {
    type V = InstV;

    open spec fn view(&self) -> InstV {
        view_inst(*self)
    }
}

/// The bytes of `frame`.
pub open spec fn kw_frame() -> Seq<u8> {
    seq![102u8, 114u8, 97u8, 109u8, 101u8]
}

/// The bytes of `wait`.
pub open spec fn kw_wait() -> Seq<u8> {
    seq![119u8, 97u8, 105u8, 116u8]
}

/// The bytes of `is_execute`.
pub open spec fn kw_is_execute() -> Seq<u8> {
    seq![105u8, 115u8, 95u8, 101u8, 120u8, 101u8, 99u8, 117u8, 116u8, 101u8]
}

/// The bytes of `is_excute`, the historical misspelling the interpreter
/// itself uses; both spellings are honoured.
pub open spec fn kw_is_excute() -> Seq<u8> {
    seq![105u8, 115u8, 95u8, 101u8, 120u8, 99u8, 117u8, 116u8, 101u8]
}

/// The bytes of `sv_`, the reserved prefix of application-binding calls.
pub open spec fn sv_prefix() -> Seq<u8> {
    seq![115u8, 118u8, 95u8]
}

/// The bytes of `game_CaptureCutCommon`, the one legacy compound name
/// the expansion table knows.
pub open spec fn kw_capture_cut() -> Seq<u8> {
    seq![
        103u8, 97u8, 109u8, 101u8, 95u8, 67u8, 97u8, 112u8, 116u8, 117u8, 114u8, 101u8, 67u8,
        117u8, 116u8, 67u8, 111u8, 109u8, 109u8, 111u8, 110u8,
    ]
}

/// The bytes of `ATTACK_ABS`, the fixed call the legacy expansion ends
/// with.
pub open spec fn attack_abs_name() -> Seq<u8> {
    seq![65u8, 84u8, 84u8, 65u8, 67u8, 75u8, 95u8, 65u8, 66u8, 83u8]
}

/// The fixed expansion of the legacy compound name: guarded by the
/// frame-reached condition, clear the stack, push fifteen literal
/// values, and invoke the absolute-attack entry.
pub open spec fn capture_cut_expansion() -> Seq<InstV> {
    seq![
        InstV::FrameGuard {
            body: seq![
                InstV::ClearStack,
                InstV::PushConst(ConstVal::Sym(HostConst::FighterAttackAbsoluteKindCatch)),
                InstV::PushConst(ConstVal::Int(0)),
                InstV::PushConst(ConstVal::Num(3)),
                InstV::PushConst(ConstVal::Int(100)),
                InstV::PushConst(ConstVal::Int(0)),
                InstV::PushConst(ConstVal::Int(60)),
                InstV::PushConst(ConstVal::Num(0)),
                InstV::PushConst(ConstVal::Num(1)),
                InstV::PushConst(ConstVal::Sym(HostConst::AttackLrCheckF)),
                InstV::PushConst(ConstVal::Num(0)),
                InstV::PushConst(ConstVal::Bool(true)),
                InstV::PushConst(ConstVal::Sym(HostConst::CollisionAttrNormalHash)),
                InstV::PushConst(ConstVal::Sym(HostConst::AttackSoundLevelS)),
                InstV::PushConst(ConstVal::Sym(HostConst::CollisionSoundAttrKick)),
                InstV::PushConst(ConstVal::Sym(HostConst::AttackRegionNone)),
                InstV::InvokeVm { module: VmModule::Animcmd, path: seq![attack_abs_name()] },
            ],
        },
    ]
}

/// The expansion table: what a legacy compound name expands to, if it is
/// one. Further entries belong here, not in the lowering rules.
pub open spec fn expansion_of(name: Seq<u8>) -> Option<Seq<InstV>> {
    if name == kw_capture_cut() {
        Some(capture_cut_expansion())
    } else {
        None
    }
}

/// One converted push per argument, in order.
pub open spec fn push_args(args: Seq<ArgV>) -> Seq<InstV> {
    args.map(|i: int, a: ArgV| InstV::PushArg(a.expr))
}

/// The bare argument expressions, in order.
pub open spec fn arg_exprs(args: Seq<ArgV>) -> Seq<ExprV> {
    args.map(|i: int, a: ArgV| a.expr)
}

/// The lowering of one function call, dispatched on the shape of its
/// name. `None` is the one lowering diagnostic: a timing builtin called
/// with no argument.
pub open spec fn lowered_call(c: CallV) -> Option<Seq<InstV>> {
    if c.path.len() == 1 && c.path[0] == kw_frame() {
        if c.args.len() == 0 {
            None
        } else {
            Some(seq![InstV::Timing { kind: TimingKind::Frame, arg: c.args[0].expr }])
        }
    } else if c.path.len() == 1 && c.path[0] == kw_wait() {
        if c.args.len() == 0 {
            None
        } else {
            Some(seq![InstV::Timing { kind: TimingKind::Wait, arg: c.args[0].expr }])
        }
    } else if c.path.len() == 1 && expansion_of(c.path[0]) is Some {
        expansion_of(c.path[0])
    } else if c.path.len() == 1 {
        Some(
            seq![InstV::ClearStack] + push_args(c.args) + seq![
                InstV::InvokeVm { module: VmModule::Animcmd, path: c.path },
            ],
        )
    } else if c.path.len() > 1 && is_prefix(sv_prefix(), c.path[0]) {
        Some(
            seq![InstV::ClearStack] + push_args(c.args) + seq![
                InstV::InvokeVm { module: VmModule::AppRoot, path: c.path },
            ],
        )
    } else {
        Some(seq![InstV::CallModule { path: c.path, args: arg_exprs(c.args) }])
    }
}

/// The predicate prelude of a conditional: when the condition is
/// literally the frame-check identifier (either spelling), clear the
/// stack, invoke the frame-reached predicate, and rebind the identifier
/// to the popped boolean; any other condition gets no prelude.
pub open spec fn is_execute_prelude(cond: ExprV) -> Seq<InstV> {
    match cond {
        ExprV::Ident(id) => if id == kw_is_execute() || id == kw_is_excute() {
            seq![InstV::ClearStack, InstV::FramePredicate, InstV::PopBool { bind: id }]
        } else {
            Seq::empty()
        },
        _ => Seq::empty(),
    }
}

/// The lowering of one statement.
pub open spec fn lowered_stmt(s: StmtV) -> Option<Seq<InstV>>
    decreases s,
{
    match s {
        StmtV::Call(c) => lowered_call(c),
        StmtV::If { cond, then_block, else_block } => match lowered_stmts(then_block.stmts) {
            None => None,
            Some(tb) => {
                let eb_opt = match else_block {
                    Some(b) => lowered_stmts(b.stmts),
                    None => Some(Seq::empty()),
                };
                match eb_opt {
                    None => None,
                    Some(eb) => Some(
                        is_execute_prelude(cond) + seq![
                            InstV::Branch { cond, then_body: tb, else_body: eb },
                        ],
                    ),
                }
            },
        },
        StmtV::Repeat { count, body } => match lowered_stmts(body.stmts) {
            None => None,
            Some(b) => Some(seq![InstV::Loop { count, body: b }]),
        },
        StmtV::Rust { host } => Some(seq![InstV::Host { src: host }]),
    }
}

/// The lowering of a statement sequence: each statement's instructions,
/// concatenated in statement order — never reordered.
pub open spec fn lowered_stmts(ss: Seq<StmtV>) -> Option<Seq<InstV>>
    decreases ss,
{
    if ss.len() == 0 {
        Some(Seq::empty())
    } else {
        match (lowered_stmt(ss[0]), lowered_stmts(ss.drop_first())) {
            (Some(h), Some(t)) => Some(h + t),
            _ => None,
        }
    }
}

/// The lowering of a whole input: with an interpreter-state expression,
/// the setup that derives the block's handles once, then the block;
/// without one, the block alone, in an already initialised context.
pub open spec fn compiled_input(inp: InputV) -> Option<Seq<InstV>> {
    match lowered_stmts(inp.block.stmts) {
        None => None,
        Some(body) => match inp.state {
            Some(st) => Some(seq![InstV::Setup { state: st }] + body),
            None => Some(body),
        },
    }
}

/// The whole pipeline on source bytes: tokens, statement tree, lowered
/// instructions. `None` on any lexical, grammatical or lowering
/// diagnostic: no partial output.
pub open spec fn compiled_source(src: Seq<u8>) -> Option<Seq<InstV>> {
    match crate::lexer::lex_from(src, 0) {
        None => None,
        Some(toks) => match crate::parser::p_input(toks) {
            None => None,
            Some(inp) => compiled_input(inp),
        },
    }
}

/// A conditional on the frame-check identifier — either spelling — is
/// lowered with the predicate emitted before the branch: clear the
/// stack, invoke the frame-reached predicate, and rebind the condition
/// identifier to the popped boolean, so the branch tests that result.
pub proof fn lemma_is_execute_rebinding(id: Seq<u8>)
    requires
        id == kw_is_execute() || id == kw_is_excute(),
    ensures
        is_execute_prelude(ExprV::Ident(id)) == seq![
            InstV::ClearStack,
            InstV::FramePredicate,
            InstV::PopBool { bind: id },
        ],
{
}

/// A lowered conditional always carries both arms: the prelude (empty
/// for an ordinary condition) followed by one branch instruction whose
/// else-arm is structurally present — the empty sequence when the
/// source had no else-branch.
pub proof fn lemma_if_lowering(
    cond: ExprV,
    then_block: BlockV,
    else_block: Option<BlockV>,
    tb: Seq<InstV>,
    eb: Seq<InstV>,
)
    requires
        lowered_stmts(then_block.stmts) == Some(tb),
        match else_block {
            Some(b) => lowered_stmts(b.stmts) == Some(eb),
            None => eb == Seq::<InstV>::empty(),
        },
    ensures
        lowered_stmt(StmtV::If { cond, then_block, else_block }) == Some(
            is_execute_prelude(cond) + seq![
                InstV::Branch { cond, then_body: tb, else_body: eb },
            ],
        ),
{
}

/// A qualified, non-reserved call is lowered to one direct native call:
/// the path itself, with the block's module accessor as an implicit
/// leading argument and then exactly one converted value per source
/// argument — no stack traffic.
pub proof fn lemma_module_call_marshalling(c: CallV)
    requires
        c.path.len() > 1,
        !is_prefix(sv_prefix(), c.path[0]),
    ensures
        lowered_call(c) == Some(seq![InstV::CallModule { path: c.path, args: arg_exprs(c.args) }]),
        arg_exprs(c.args).len() == c.args.len(),
        forall|i: int| 0 <= i < c.args.len() ==> #[trigger] arg_exprs(c.args)[i] == c.args[i].expr,
{
}

/// An unqualified call that is no builtin and no legacy expansion is
/// lowered to the interpreter's stack convention: clear the stack, push
/// exactly one converted value per argument in order, and invoke the
/// name in the animation-command module with no further positional
/// arguments.
pub proof fn lemma_vm_call_marshalling(c: CallV)
    requires
        c.path.len() == 1,
        c.path[0] != kw_frame(),
        c.path[0] != kw_wait(),
        expansion_of(c.path[0]) is None,
    ensures
        lowered_call(c) == Some(
            seq![InstV::ClearStack] + push_args(c.args) + seq![
                InstV::InvokeVm { module: VmModule::Animcmd, path: c.path },
            ],
        ),
        push_args(c.args).len() == c.args.len(),
        forall|i: int|
            0 <= i < c.args.len() ==> #[trigger] push_args(c.args)[i] == InstV::PushArg(
                c.args[i].expr,
            ),
{
}

/// A qualified call whose root segment carries the reserved prefix uses
/// the same stack convention, but the invocation targets the
/// application-binding module instead.
pub proof fn lemma_reserved_call_marshalling(c: CallV)
    requires
        c.path.len() > 1,
        is_prefix(sv_prefix(), c.path[0]),
    ensures
        lowered_call(c) == Some(
            seq![InstV::ClearStack] + push_args(c.args) + seq![
                InstV::InvokeVm { module: VmModule::AppRoot, path: c.path },
            ],
        ),
        push_args(c.args).len() == c.args.len(),
{
}

/// The bytes of `frame`.
pub fn frame_bytes() -> (r: Vec<u8>)
    ensures
        r@ == kw_frame(),
{
    let mut v: Vec<u8> = Vec::new();
    v.push(102);
    v.push(114);
    v.push(97);
    v.push(109);
    v.push(101);
    proof {
        assert(v@ =~= kw_frame());
    }
    v
}

/// The bytes of `wait`.
pub fn wait_bytes() -> (r: Vec<u8>)
    ensures
        r@ == kw_wait(),
{
    let mut v: Vec<u8> = Vec::new();
    v.push(119);
    v.push(97);
    v.push(105);
    v.push(116);
    proof {
        assert(v@ =~= kw_wait());
    }
    v
}

/// The bytes of `is_execute`.
pub fn is_execute_bytes() -> (r: Vec<u8>)
    ensures
        r@ == kw_is_execute(),
{
    let mut v: Vec<u8> = Vec::new();
    v.push(105);
    v.push(115);
    v.push(95);
    v.push(101);
    v.push(120);
    v.push(101);
    v.push(99);
    v.push(117);
    v.push(116);
    v.push(101);
    proof {
        assert(v@ =~= kw_is_execute());
    }
    v
}

/// The bytes of `is_excute`.
pub fn is_excute_bytes() -> (r: Vec<u8>)
    ensures
        r@ == kw_is_excute(),
{
    let mut v: Vec<u8> = Vec::new();
    v.push(105);
    v.push(115);
    v.push(95);
    v.push(101);
    v.push(120);
    v.push(99);
    v.push(117);
    v.push(116);
    v.push(101);
    proof {
        assert(v@ =~= kw_is_excute());
    }
    v
}

/// The bytes of `sv_`.
pub fn sv_prefix_bytes() -> (r: Vec<u8>)
    ensures
        r@ == sv_prefix(),
{
    let mut v: Vec<u8> = Vec::new();
    v.push(115);
    v.push(118);
    v.push(95);
    proof {
        assert(v@ =~= sv_prefix());
    }
    v
}

/// The bytes of `game_CaptureCutCommon`.
pub fn capture_cut_bytes() -> (r: Vec<u8>)
    ensures
        r@ == kw_capture_cut(),
{
    let mut v: Vec<u8> = Vec::new();
    v.push(103);
    v.push(97);
    v.push(109);
    v.push(101);
    v.push(95);
    v.push(67);
    v.push(97);
    v.push(112);
    v.push(116);
    v.push(117);
    v.push(114);
    v.push(101);
    v.push(67);
    v.push(117);
    v.push(116);
    v.push(67);
    v.push(111);
    v.push(109);
    v.push(109);
    v.push(111);
    v.push(110);
    proof {
        assert(v@ =~= kw_capture_cut());
    }
    v
}

/// The bytes of `ATTACK_ABS`.
pub fn attack_abs_bytes() -> (r: Vec<u8>)
    ensures
        r@ == attack_abs_name(),
{
    let mut v: Vec<u8> = Vec::new();
    v.push(65);
    v.push(84);
    v.push(84);
    v.push(65);
    v.push(67);
    v.push(75);
    v.push(95);
    v.push(65);
    v.push(66);
    v.push(83);
    proof {
        assert(v@ =~= attack_abs_name());
    }
    v
}

/// Build the legacy expansion.
fn capture_cut_insts() -> (r: Vec<Inst>)
    ensures
        view_insts(r@) == capture_cut_expansion(),
{
    let mut body: Vec<Inst> = Vec::new();
    body.push(Inst::ClearStack);
    body.push(Inst::PushConst(ConstVal::Sym(HostConst::FighterAttackAbsoluteKindCatch)));
    body.push(Inst::PushConst(ConstVal::Int(0)));
    body.push(Inst::PushConst(ConstVal::Num(3)));
    body.push(Inst::PushConst(ConstVal::Int(100)));
    body.push(Inst::PushConst(ConstVal::Int(0)));
    body.push(Inst::PushConst(ConstVal::Int(60)));
    body.push(Inst::PushConst(ConstVal::Num(0)));
    body.push(Inst::PushConst(ConstVal::Num(1)));
    body.push(Inst::PushConst(ConstVal::Sym(HostConst::AttackLrCheckF)));
    body.push(Inst::PushConst(ConstVal::Num(0)));
    body.push(Inst::PushConst(ConstVal::Bool(true)));
    body.push(Inst::PushConst(ConstVal::Sym(HostConst::CollisionAttrNormalHash)));
    body.push(Inst::PushConst(ConstVal::Sym(HostConst::AttackSoundLevelS)));
    body.push(Inst::PushConst(ConstVal::Sym(HostConst::CollisionSoundAttrKick)));
    body.push(Inst::PushConst(ConstVal::Sym(HostConst::AttackRegionNone)));
    let mut path: Vec<Vec<u8>> = Vec::new();
    path.push(attack_abs_bytes());
    proof {
        assert(crate::ast::view_segs(path@) =~= seq![attack_abs_name()]);
    }
    body.push(Inst::InvokeVm { module: VmModule::Animcmd, path });
    let ghost bodyv = body@;
    let mut out: Vec<Inst> = Vec::new();
    out.push(Inst::FrameGuard { body });
    proof {
        lemma_view_insts(bodyv);
        lemma_view_insts(out@);
        assert(capture_cut_expansion()[0] matches InstV::FrameGuard { body: eb } && view_insts(
            bodyv,
        ) =~= eb);
        assert(view_insts(out@) =~= capture_cut_expansion());
    }
    out
}

/// One converted push per argument, in order.
fn push_arg_insts(args: &Vec<ArgExpr>) -> (r: Vec<Inst>)
    ensures
        view_insts(r@) == push_args(view_args(args@)),
{
    let mut out: Vec<Inst> = Vec::new();
    let mut i: usize = 0;
    while i < args.len()
        invariant
            i <= args@.len(),
            out@.len() == i,
            forall|j: int|
                0 <= j < i ==> #[trigger] view_inst(out@[j]) == InstV::PushArg(
                    crate::ast::view_arg(args@[j]).expr,
                ),
        decreases args@.len() - i,
    {
        out.push(Inst::PushArg(crate::ast::clone_expr(&args[i].expr)));
        i = i + 1;
    }
    proof {
        lemma_view_insts(out@);
        assert(view_insts(out@) =~= push_args(view_args(args@)));
    }
    out
}

/// The bare argument expressions, in order.
fn exprs_of(args: &Vec<ArgExpr>) -> (r: Vec<Expr>)
    ensures
        view_exprs(r@) == arg_exprs(view_args(args@)),
{
    let mut out: Vec<Expr> = Vec::new();
    let mut i: usize = 0;
    while i < args.len()
        invariant
            i <= args@.len(),
            out@.len() == i,
            forall|j: int|
                0 <= j < i ==> #[trigger] crate::ast::view_expr(out@[j]) == crate::ast::view_arg(
                    args@[j],
                ).expr,
        decreases args@.len() - i,
    {
        out.push(crate::ast::clone_expr(&args[i].expr));
        i = i + 1;
    }
    proof {
        assert(view_exprs(out@) =~= arg_exprs(view_args(args@)));
    }
    out
}

/// Lower one function call by the shape of its name.
pub fn lower_call(c: AcmdFuncCall) -> (r: Result<Vec<Inst>, CompileError>)
    ensures
        match r {
            Ok(insts) => lowered_call(c@) == Some(view_insts(insts@)),
            Err(e) => lowered_call(c@) is None && e matches CompileError::MissingArgument { .. },
        },
{
    let single = c.path.len() == 1;
    if single && bytes_eq(&c.path[0], &frame_bytes()) {
        if c.args.len() == 0 {
            return Err(CompileError::MissingArgument { name: frame_bytes() });
        }
        let arg = crate::ast::clone_expr(&c.args[0].expr);
        let mut out: Vec<Inst> = Vec::new();
        out.push(Inst::Timing { kind: TimingKind::Frame, arg });
        proof {
            lemma_view_insts(out@);
            assert(view_insts(out@) =~= lowered_call(c@)->0);
        }
        Ok(out)
    } else if single && bytes_eq(&c.path[0], &wait_bytes()) {
        if c.args.len() == 0 {
            return Err(CompileError::MissingArgument { name: wait_bytes() });
        }
        let arg = crate::ast::clone_expr(&c.args[0].expr);
        let mut out: Vec<Inst> = Vec::new();
        out.push(Inst::Timing { kind: TimingKind::Wait, arg });
        proof {
            lemma_view_insts(out@);
            assert(view_insts(out@) =~= lowered_call(c@)->0);
        }
        Ok(out)
    } else if single && bytes_eq(&c.path[0], &capture_cut_bytes()) {
        Ok(capture_cut_insts())
    } else if single {
        let mut out: Vec<Inst> = Vec::new();
        out.push(Inst::ClearStack);
        let mut pushes = push_arg_insts(&c.args);
        let ghost pv = pushes@;
        out.append(&mut pushes);
        out.push(Inst::InvokeVm { module: VmModule::Animcmd, path: c.path });
        proof {
            lemma_view_insts(out@);
            lemma_view_insts(pv);
            assert(view_insts(out@) =~= lowered_call(c@)->0);
        }
        Ok(out)
    } else if c.path.len() > 1 && has_prefix(&c.path[0], &sv_prefix_bytes()) {
        let mut out: Vec<Inst> = Vec::new();
        out.push(Inst::ClearStack);
        let mut pushes = push_arg_insts(&c.args);
        let ghost pv = pushes@;
        out.append(&mut pushes);
        out.push(Inst::InvokeVm { module: VmModule::AppRoot, path: c.path });
        proof {
            lemma_view_insts(out@);
            lemma_view_insts(pv);
            assert(view_insts(out@) =~= lowered_call(c@)->0);
        }
        Ok(out)
    } else {
        let args = exprs_of(&c.args);
        let mut out: Vec<Inst> = Vec::new();
        out.push(Inst::CallModule { path: c.path, args });
        proof {
            lemma_view_insts(out@);
            assert(view_insts(out@) =~= lowered_call(c@)->0);
        }
        Ok(out)
    }
}

/// Emit the predicate prelude of a conditional, when its condition is
/// the frame-check identifier in either spelling.
pub fn generate_acmd_is_execute(cond: &Expr) -> (r: Vec<Inst>)
    ensures
        view_insts(r@) == is_execute_prelude(cond@),
{
    match cond {
        Expr::Ident(id) => {
            if bytes_eq(id, &is_execute_bytes()) || bytes_eq(id, &is_excute_bytes()) {
                let mut out: Vec<Inst> = Vec::new();
                out.push(Inst::ClearStack);
                out.push(Inst::FramePredicate);
                out.push(Inst::PopBool { bind: clone_bytes(id) });
                proof {
                    lemma_view_insts(out@);
                    assert(view_insts(out@) =~= is_execute_prelude(cond@));
                }
                out
            } else {
                let out: Vec<Inst> = Vec::new();
                proof {
                    assert(view_insts(out@) =~= is_execute_prelude(cond@));
                }
                out
            }
        },
        _ => {
            let out: Vec<Inst> = Vec::new();
            proof {
                assert(view_insts(out@) =~= is_execute_prelude(cond@));
            }
            out
        },
    }
}

/// Lower one statement.
pub fn lower_stmt(s: AcmdStatement) -> (r: Result<Vec<Inst>, CompileError>)
    ensures
        match r {
            Ok(insts) => lowered_stmt(s@) == Some(view_insts(insts@)),
            Err(e) => lowered_stmt(s@) is None && e matches CompileError::MissingArgument { .. },
        },
    decreases s,
{
    match s {
        AcmdStatement::Call(c) => lower_call(c),
        AcmdStatement::If { cond, then_block, else_block } => {
            let prelude = generate_acmd_is_execute(&cond);
            let ghost preludev = view_insts(prelude@);
            let AcmdBlock { stmts: tstmts } = then_block;
            let tb = match lower_stmt_list(tstmts) {
                Ok(x) => x,
                Err(e) => {
                    return Err(e);
                },
            };
            let ghost tbv = view_insts(tb@);
            let eb = match else_block {
                Some(bb) => {
                    let AcmdBlock { stmts: estmts } = bb;
                    match lower_stmt_list(estmts) {
                        Ok(x) => x,
                        Err(e) => {
                            return Err(e);
                        },
                    }
                },
                None => Vec::new(),
            };
            let ghost ebv = view_insts(eb@);
            let ghost condv = cond@;
            let ghost pseq = prelude@;
            let mut out = prelude;
            out.push(Inst::Branch { cond, then_body: tb, else_body: eb });
            proof {
                lemma_view_insts(out@);
                lemma_view_insts(pseq);
                assert(view_insts(out@) =~= preludev + seq![
                    InstV::Branch { cond: condv, then_body: tbv, else_body: ebv },
                ]);
            }
            Ok(out)
        },
        AcmdStatement::Repeat { count, body } => {
            let AcmdBlock { stmts: bstmts } = body;
            let b = match lower_stmt_list(bstmts) {
                Ok(x) => x,
                Err(e) => {
                    return Err(e);
                },
            };
            let ghost bv = view_insts(b@);
            let ghost countv = count@;
            let mut out: Vec<Inst> = Vec::new();
            out.push(Inst::Loop { count, body: b });
            proof {
                lemma_view_insts(out@);
                assert(view_insts(out@) =~= seq![InstV::Loop { count: countv, body: bv }]);
            }
            Ok(out)
        },
        AcmdStatement::Rust { host } => {
            let ghost hostv = host@;
            let mut out: Vec<Inst> = Vec::new();
            out.push(Inst::Host { src: host });
            proof {
                lemma_view_insts(out@);
                assert(view_insts(out@) =~= seq![InstV::Host { src: hostv }]);
            }
            Ok(out)
        },
    }
}

/// Lower a statement list, concatenating in statement order.
pub fn lower_stmt_list(ss: Vec<AcmdStatement>) -> (r: Result<Vec<Inst>, CompileError>)
    ensures
        match r {
            Ok(insts) => lowered_stmts(view_stmts(ss@)) == Some(view_insts(insts@)),
            Err(e) => lowered_stmts(view_stmts(ss@)) is None && e matches
                CompileError::MissingArgument { .. },
        },
    decreases ss@,
{
    let mut rem = ss;
    if rem.len() == 0 {
        let out: Vec<Inst> = Vec::new();
        proof {
            assert(view_insts(out@) =~= Seq::<InstV>::empty());
        }
        return Ok(out);
    }
    let s0 = rem.remove(0);
    let ghost s0v = s0@;
    proof {
        crate::ast::lemma_view_stmts(ss@);
        crate::ast::lemma_view_stmts(rem@);
        assert(rem@ =~= ss@.drop_first());
        assert(view_stmts(ss@).drop_first() =~= view_stmts(rem@));
        assert(view_stmts(ss@)[0] == s0v);
    }
    let mut head = match lower_stmt(s0) {
        Ok(x) => x,
        Err(e) => {
            return Err(e);
        },
    };
    let ghost hseq = head@;
    let mut tail = match lower_stmt_list(rem) {
        Ok(x) => x,
        Err(e) => {
            return Err(e);
        },
    };
    let ghost tseq = tail@;
    head.append(&mut tail);
    proof {
        lemma_view_insts(head@);
        lemma_view_insts(hseq);
        lemma_view_insts(tseq);
        assert(view_insts(head@) =~= view_insts(hseq) + view_insts(tseq));
    }
    Ok(head)
}

/// Lower a whole input: the optional handle setup, then the block.
pub fn compile(inp: AcmdInput) -> (r: Result<Vec<Inst>, CompileError>)
    ensures
        match r {
            Ok(insts) => compiled_input(inp@) == Some(view_insts(insts@)),
            Err(e) => compiled_input(inp@) is None && e matches CompileError::MissingArgument {
                ..
            },
        },
{
    let AcmdInput { state, block } = inp;
    let AcmdBlock { stmts } = block;
    let body = match lower_stmt_list(stmts) {
        Ok(x) => x,
        Err(e) => {
            return Err(e);
        },
    };
    match state {
        Some(st) => {
            let ghost stv = st@;
            let ghost bseq = body@;
            let mut out: Vec<Inst> = Vec::new();
            out.push(Inst::Setup { state: st });
            let mut body2 = body;
            out.append(&mut body2);
            proof {
                lemma_view_insts(out@);
                lemma_view_insts(bseq);
                assert(view_insts(out@) =~= seq![InstV::Setup { state: stv }] + view_insts(bseq));
            }
            Ok(out)
        },
        None => Ok(body),
    }
}

/// Compile source bytes all the way to lowered instructions. Succeeds
/// exactly where [`compiled_source`] does, and then returns exactly its
/// instructions.
pub fn acmd(src: &Vec<u8>) -> (r: Result<Vec<Inst>, CompileError>)
    ensures
        match r {
            Ok(insts) => compiled_source(src@) == Some(view_insts(insts@)),
            Err(_) => compiled_source(src@) is None,
        },
{
    let toks = match crate::lexer::lex(src) {
        Ok(t) => t,
        Err(e) => {
            return Err(e);
        },
    };
    let inp = match crate::parser::parse(&toks) {
        Ok(i) => i,
        Err(e) => {
            return Err(e);
        },
    };
    compile(inp)
}

} // verus!
