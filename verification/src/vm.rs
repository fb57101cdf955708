//! Observable behaviour of lowered instructions: the trace of calls a
//! script makes against the interpreter.
//!
//! The semantics runs the control skeleton of a script: literal branch
//! conditions and literal loop counts. What only the live interpreter
//! can decide — the frame-reached predicate behind a rebound condition,
//! or the frame guard of the legacy expansion — has no trace here, and
//! running such an instruction reports that by returning nothing.
//! Expressions evaluate symbolically: an identifier evaluates to itself,
//! for the host to resolve.

use vstd::prelude::*;

use crate::ast::{Expr, ExprV};
use crate::bytes::clone_bytes;
use crate::lower::{view_inst, view_insts, ConstVal, Inst, InstV, TimingKind, VmModule};

verus! {

/// A value a script hands to the interpreter.
#[derive(Debug, PartialEq, Eq)]
pub enum VmValue {
    /// An integer.
    Int(u64),
    /// A boolean.
    Boolean(bool),
    /// An identifier, resolved by the host.
    Sym(Vec<u8>),
    /// A string.
    Str(Vec<u8>),
    /// The block's module accessor, derived once per compiled block.
    Accessor,
}

/// Mathematical view of [`VmValue`].
pub enum VmValueV {
    Int(u64),
    Boolean(bool),
    Sym(Seq<u8>),
    Str(Seq<u8>),
    Accessor,
}

impl View for VmValue {
    type V = VmValueV;

    open spec fn view(&self) -> VmValueV {
        match self {
            VmValue::Int(n) => VmValueV::Int(*n),
            VmValue::Boolean(b) => VmValueV::Boolean(*b),
            VmValue::Sym(s) => VmValueV::Sym(s@),
            VmValue::Str(s) => VmValueV::Str(s@),
            VmValue::Accessor => VmValueV::Accessor,
        }
    }
}

/// One observable interpreter action.
#[derive(Debug, PartialEq, Eq)]
pub enum Event {
    /// The argument stack was cleared.
    ClearStack,
    /// A converted argument value was pushed.
    Push(VmValue),
    /// A literal from the expansion table was pushed.
    PushLit(ConstVal),
    /// A named interpreter entry point was invoked.
    Invoke { module: VmModule, path: Vec<Vec<u8>> },
    /// A builtin timing call ran, its argument coerced to the
    /// interpreter's number type.
    TimingCall { kind: TimingKind, arg: VmValue },
    /// A native-convention call ran; the leading argument is always the
    /// module accessor.
    ModuleCall { path: Vec<Vec<u8>>, args: Vec<VmValue> },
    /// The frame-reached predicate was invoked.
    PredicateCall,
    /// A boolean was popped and rebound.
    PopBool { bind: Vec<u8> },
    /// A loop's iteration count was evaluated.
    EvalCount { n: u64 },
    /// Host statements ran.
    HostSplice { src: Vec<u8> },
    /// The block's handles were derived from the interpreter state.
    Setup { state: VmValue },
}

/// Mathematical view of [`Event`].
pub enum EventV {
    ClearStack,
    Push(VmValueV),
    PushLit(ConstVal),
    Invoke { module: VmModule, path: Seq<Seq<u8>> },
    TimingCall { kind: TimingKind, arg: VmValueV },
    ModuleCall { path: Seq<Seq<u8>>, args: Seq<VmValueV> },
    PredicateCall,
    PopBool { bind: Seq<u8> },
    EvalCount { n: u64 },
    HostSplice { src: Seq<u8> },
    Setup { state: VmValueV },
}

impl View for Event {
    type V = EventV;

    open spec fn view(&self) -> EventV {
        match self {
            Event::ClearStack => EventV::ClearStack,
            Event::Push(v) => EventV::Push(v@),
            Event::PushLit(c) => EventV::PushLit(*c),
            Event::Invoke { module, path } => EventV::Invoke {
                module: *module,
                path: crate::ast::view_segs(path@),
            },
            Event::TimingCall { kind, arg } => EventV::TimingCall { kind: *kind, arg: arg@ },
            Event::ModuleCall { path, args } => EventV::ModuleCall {
                path: crate::ast::view_segs(path@),
                args: view_values(args@),
            },
            Event::PredicateCall => EventV::PredicateCall,
            Event::PopBool { bind } => EventV::PopBool { bind: bind@ },
            Event::EvalCount { n } => EventV::EvalCount { n: *n },
            Event::HostSplice { src } => EventV::HostSplice { src: src@ },
            Event::Setup { state } => EventV::Setup { state: state@ },
        }
    }
}

/// The views of a value list, in order.
pub open spec fn view_values(vs: Seq<VmValue>) -> Seq<VmValueV> {
    vs.map(|i: int, v: VmValue| v@)
}

/// The views of an event list, in order.
pub open spec fn view_events(es: Seq<Event>) -> Seq<EventV> {
    es.map(|i: int, e: Event| e@)
}

/// Symbolic evaluation of an expression.
pub open spec fn eval_expr(e: ExprV) -> VmValueV {
    match e {
        ExprV::Int(n) => VmValueV::Int(n),
        ExprV::Bool(b) => VmValueV::Boolean(b),
        ExprV::Ident(id) => VmValueV::Sym(id),
        ExprV::Str(s) => VmValueV::Str(s),
    }
}

/// The evaluated argument values of a native-convention call: the
/// module accessor first, then each argument.
pub open spec fn module_call_args(args: Seq<ExprV>) -> Seq<VmValueV> {
    seq![VmValueV::Accessor] + args.map(|i: int, e: ExprV| eval_expr(e))
}

/// The trace of one instruction, or `None` where only the live
/// interpreter could decide how to continue.
pub open spec fn run_inst(i: InstV) -> Option<Seq<EventV>>
    decreases i, 0nat,
{
    match i {
        InstV::ClearStack => Some(seq![EventV::ClearStack]),
        InstV::PushArg(e) => Some(seq![EventV::Push(eval_expr(e))]),
        InstV::PushConst(c) => Some(seq![EventV::PushLit(c)]),
        InstV::InvokeVm { module, path } => Some(seq![EventV::Invoke { module, path }]),
        InstV::Timing { kind, arg } => Some(
            seq![EventV::TimingCall { kind, arg: eval_expr(arg) }],
        ),
        InstV::CallModule { path, args } => Some(
            seq![EventV::ModuleCall { path, args: module_call_args(args) }],
        ),
        InstV::FramePredicate => Some(seq![EventV::PredicateCall]),
        InstV::PopBool { bind } => Some(seq![EventV::PopBool { bind }]),
        InstV::FrameGuard { .. } => None,
        InstV::Branch { cond, then_body, else_body } => match eval_expr(cond) {
            VmValueV::Boolean(b) => if b {
                run_insts(then_body)
            } else {
                run_insts(else_body)
            },
            _ => None,
        },
        InstV::Loop { count, body } => match eval_expr(count) {
            VmValueV::Int(n) => match run_loop(body, n as nat) {
                None => None,
                Some(t) => Some(seq![EventV::EvalCount { n }] + t),
            },
            _ => None,
        },
        InstV::Host { src } => Some(seq![EventV::HostSplice { src }]),
        InstV::Setup { state } => Some(seq![EventV::Setup { state: eval_expr(state) }]),
    }
}

/// The trace of an instruction sequence.
pub open spec fn run_insts(is: Seq<InstV>) -> Option<Seq<EventV>>
    decreases is, 0nat,
{
    if is.len() == 0 {
        Some(Seq::empty())
    } else {
        match (run_inst(is[0]), run_insts(is.drop_first())) {
            (Some(h), Some(t)) => Some(h + t),
            _ => None,
        }
    }
}

/// The trace of running a loop body `n` times.
pub open spec fn run_loop(body: Seq<InstV>, n: nat) -> Option<Seq<EventV>>
    decreases body, n,
{
    if n == 0 {
        Some(Seq::empty())
    } else {
        match (run_insts(body), run_loop(body, (n - 1) as nat)) {
            (Some(t), Some(rest)) => Some(t + rest),
            _ => None,
        }
    }
}

/// A trace repeated `n` times.
pub open spec fn repeat_trace(t: Seq<EventV>, n: nat) -> Seq<EventV>
    decreases n,
{
    if n == 0 {
        Seq::empty()
    } else {
        t + repeat_trace(t, (n - 1) as nat)
    }
}

/// How many count evaluations a trace holds.
pub open spec fn count_evals(t: Seq<EventV>) -> nat
    decreases t,
{
    if t.len() == 0 {
        0
    } else {
        (if t[0] is EvalCount {
            1nat
        } else {
            0nat
        }) + count_evals(t.drop_first())
    }
}

pub proof fn lemma_run_loop_repeats(body: Seq<InstV>, n: nat, t: Seq<EventV>)
    requires
        run_insts(body) == Some(t),
    ensures
        run_loop(body, n) == Some(repeat_trace(t, n)),
    decreases n,
{
    if n != 0 {
        lemma_run_loop_repeats(body, (n - 1) as nat, t);
    }
}

/// Running a lowered counted loop with a literal count `n` evaluates the
/// count exactly once, then runs the body's trace exactly `n` times —
/// the count is never re-evaluated per iteration.
pub proof fn lemma_loop_trace(count: ExprV, body: Seq<InstV>, n: u64, t: Seq<EventV>)
    requires
        eval_expr(count) == VmValueV::Int(n),
        run_insts(body) == Some(t),
    ensures
        run_inst(InstV::Loop { count, body }) == Some(
            seq![EventV::EvalCount { n }] + repeat_trace(t, n as nat),
        ),
{
    lemma_run_loop_repeats(body, n as nat, t);
}

pub proof fn lemma_count_evals_concat(a: Seq<EventV>, b: Seq<EventV>)
    ensures
        count_evals(a + b) == count_evals(a) + count_evals(b),
    decreases a,
{
    if a.len() == 0 {
        assert(a + b =~= b);
    } else {
        assert((a + b).drop_first() =~= a.drop_first() + b);
        lemma_count_evals_concat(a.drop_first(), b);
    }
}

pub proof fn lemma_count_evals_repeat(t: Seq<EventV>, n: nat)
    ensures
        count_evals(repeat_trace(t, n)) == n * count_evals(t),
    decreases n,
{
    if n == 0 {
    } else {
        lemma_count_evals_repeat(t, (n - 1) as nat);
        lemma_count_evals_concat(t, repeat_trace(t, (n - 1) as nat));
        assert(count_evals(t) + (n - 1) * count_evals(t) == n * count_evals(t)) by (nonlinear_arith);
    }
}

/// However many times a lowered counted loop runs its body, its own
/// count evaluation appears in the trace exactly once — beyond whatever
/// count evaluations the body itself makes per iteration.
pub proof fn lemma_count_observed_once(count: ExprV, body: Seq<InstV>, n: u64, t: Seq<EventV>)
    requires
        eval_expr(count) == VmValueV::Int(n),
        run_insts(body) == Some(t),
    ensures
        run_inst(InstV::Loop { count, body }) matches Some(whole) && count_evals(whole) == 1 + n
            * count_evals(t),
{
    lemma_loop_trace(count, body, n, t);
    lemma_count_evals_concat(seq![EventV::EvalCount { n }], repeat_trace(t, n as nat));
    lemma_count_evals_repeat(t, n as nat);
    assert(count_evals(seq![EventV::EvalCount { n }]) == 1) by {
        assert(seq![EventV::EvalCount { n }].drop_first() =~= Seq::<EventV>::empty());
        assert(count_evals(Seq::<EventV>::empty()) == 0);
    }
}

pub proof fn lemma_repeat_trace_snoc(t: Seq<EventV>, n: nat)
    ensures
        repeat_trace(t, n + 1) == repeat_trace(t, n) + t,
    decreases n,
{
    if n == 0 {
        assert(repeat_trace(t, 0) =~= Seq::<EventV>::empty());
        assert(repeat_trace(t, 1) =~= t);
        assert(repeat_trace(t, 0) + t =~= t);
    } else {
        lemma_repeat_trace_snoc(t, (n - 1) as nat);
        assert(t + (repeat_trace(t, (n - 1) as nat) + t) =~= (t + repeat_trace(
            t,
            (n - 1) as nat,
        )) + t);
    }
}

/// Evaluate an expression to the value handed to the interpreter.
pub fn eval(e: &Expr) -> (r: VmValue)
    ensures
        r@ == eval_expr(e@),
{
    match e {
        Expr::Int(n) => VmValue::Int(*n),
        Expr::Bool(b) => VmValue::Boolean(*b),
        Expr::Ident(id) => VmValue::Sym(clone_bytes(id)),
        Expr::Str(s) => VmValue::Str(clone_bytes(s)),
    }
}

/// Run one instruction; `None` exactly where the semantics says only
/// the live interpreter could continue.
pub fn run_one(i: &Inst) -> (r: Option<Vec<Event>>)
    ensures
        match r {
            Some(evs) => run_inst(i@) == Some(view_events(evs@)),
            None => run_inst(i@) is None,
        },
    decreases i, 0nat,
{
    match i {
        Inst::ClearStack => {
            let mut out: Vec<Event> = Vec::new();
            out.push(Event::ClearStack);
            proof {
                assert(view_events(out@) =~= seq![EventV::ClearStack]);
            }
            Some(out)
        },
        Inst::PushArg(e) => {
            let mut out: Vec<Event> = Vec::new();
            out.push(Event::Push(eval(e)));
            proof {
                assert(view_events(out@) =~= seq![EventV::Push(eval_expr(e@))]);
            }
            Some(out)
        },
        Inst::PushConst(c) => {
            let mut out: Vec<Event> = Vec::new();
            out.push(Event::PushLit(*c));
            proof {
                assert(view_events(out@) =~= seq![EventV::PushLit(i@->PushConst_0)]);
            }
            Some(out)
        },
        Inst::InvokeVm { module, path } => {
            let mut out: Vec<Event> = Vec::new();
            out.push(Event::Invoke { module: *module, path: crate::ast::clone_path(path) });
            proof {
                assert(view_events(out@) =~= seq![
                    EventV::Invoke { module: *module, path: crate::ast::view_segs(path@) },
                ]);
            }
            Some(out)
        },
        Inst::Timing { kind, arg } => {
            let mut out: Vec<Event> = Vec::new();
            out.push(Event::TimingCall { kind: *kind, arg: eval(arg) });
            proof {
                assert(view_events(out@) =~= seq![
                    EventV::TimingCall { kind: *kind, arg: eval_expr(arg@) },
                ]);
            }
            Some(out)
        },
        Inst::CallModule { path, args } => {
            let mut vals: Vec<VmValue> = Vec::new();
            vals.push(VmValue::Accessor);
            let mut j: usize = 0;
            while j < args.len()
                invariant
                    j <= args@.len(),
                    vals@.len() == j + 1,
                    vals@[0]@ == VmValueV::Accessor,
                    forall|m: int|
                        1 <= m <= j ==> #[trigger] vals@[m]@ == eval_expr(
                            crate::ast::view_expr(args@[m - 1]),
                        ),
                decreases args@.len() - j,
            {
                vals.push(eval(&args[j]));
                j = j + 1;
            }
            proof {
                assert(view_values(vals@) =~= module_call_args(
                    crate::lower::view_exprs(args@),
                ));
            }
            let mut out: Vec<Event> = Vec::new();
            out.push(Event::ModuleCall { path: crate::ast::clone_path(path), args: vals });
            proof {
                assert(view_events(out@) =~= seq![
                    EventV::ModuleCall {
                        path: crate::ast::view_segs(path@),
                        args: module_call_args(crate::lower::view_exprs(args@)),
                    },
                ]);
            }
            Some(out)
        },
        Inst::FramePredicate => {
            let mut out: Vec<Event> = Vec::new();
            out.push(Event::PredicateCall);
            proof {
                assert(view_events(out@) =~= seq![EventV::PredicateCall]);
            }
            Some(out)
        },
        Inst::PopBool { bind } => {
            let mut out: Vec<Event> = Vec::new();
            out.push(Event::PopBool { bind: clone_bytes(bind) });
            proof {
                assert(view_events(out@) =~= seq![EventV::PopBool { bind: bind@ }]);
            }
            Some(out)
        },
        Inst::FrameGuard { .. } => None,
        Inst::Branch { cond, then_body, else_body } => {
            let cv = eval(cond);
            match cv {
                VmValue::Boolean(b) => if b {
                    run(then_body)
                } else {
                    run(else_body)
                },
                _ => None,
            }
        },
        Inst::Loop { count, body } => {
            let cv = eval(count);
            match cv {
                VmValue::Int(n) => {
                    let mut out: Vec<Event> = Vec::new();
                    out.push(Event::EvalCount { n });
                    proof {
                        assert(view_events(out@) =~= seq![EventV::EvalCount { n }]);
                    }
                    if n == 0 {
                        proof {
                            assert(seq![EventV::EvalCount { n }] + repeat_trace(
                                Seq::<EventV>::empty(),
                                0,
                            ) =~= seq![EventV::EvalCount { n }]);
                        }
                        return Some(out);
                    }
                    let first = match run(body) {
                        Some(p) => p,
                        None => {
                            return None;
                        },
                    };
                    let ghost tg = view_events(first@);
                    let mut first2 = first;
                    out.append(&mut first2);
                    proof {
                        assert(repeat_trace(tg, 0) =~= Seq::<EventV>::empty());
                        assert(repeat_trace(tg, 1) =~= tg);
                        assert(view_events(out@) =~= seq![EventV::EvalCount { n }]
                            + repeat_trace(tg, 1));
                    }
                    let mut k: u64 = 1;
                    #[verifier::loop_isolation(false)]
                    while k < n
                        invariant
                            1 <= k <= n,
                            run_insts(view_insts(body@)) == Some(tg),
                            view_events(out@) == seq![EventV::EvalCount { n }] + repeat_trace(
                                tg,
                                k as nat,
                            ),
                        decreases n - k,
                    {
                        let piece = match run(body) {
                            Some(p) => p,
                            None => {
                                proof {
                                    assert(false);
                                }
                                return None;
                            },
                        };
                        let ghost pv = view_events(piece@);
                        let mut piece2 = piece;
                        out.append(&mut piece2);
                        proof {
                            lemma_repeat_trace_snoc(tg, k as nat);
                            assert(view_events(out@) =~= (seq![EventV::EvalCount { n }]
                                + repeat_trace(tg, k as nat)) + pv);
                            assert((seq![EventV::EvalCount { n }] + repeat_trace(tg, k as nat))
                                + tg =~= seq![EventV::EvalCount { n }] + repeat_trace(
                                tg,
                                (k + 1) as nat,
                            ));
                        }
                        k = k + 1;
                    }
                    proof {
                        lemma_run_loop_repeats(view_insts(body@), n as nat, tg);
                    }
                    Some(out)
                },
                _ => None,
            }
        },
        Inst::Host { src } => {
            let mut out: Vec<Event> = Vec::new();
            out.push(Event::HostSplice { src: clone_bytes(src) });
            proof {
                assert(view_events(out@) =~= seq![EventV::HostSplice { src: src@ }]);
            }
            Some(out)
        },
        Inst::Setup { state } => {
            let mut out: Vec<Event> = Vec::new();
            out.push(Event::Setup { state: eval(state) });
            proof {
                assert(view_events(out@) =~= seq![EventV::Setup { state: eval_expr(state@) }]);
            }
            Some(out)
        },
    }
}

/// Run an instruction sequence; `None` exactly where the semantics says
/// only the live interpreter could continue.
pub fn run(insts: &Vec<Inst>) -> (r: Option<Vec<Event>>)
    ensures
        match r {
            Some(evs) => run_insts(view_insts(insts@)) == Some(view_events(evs@)),
            None => run_insts(view_insts(insts@)) is None,
        },
    decreases insts@, 0nat,
{
    let ghost w = view_insts(insts@);
    proof {
        crate::lower::lemma_view_insts(insts@);
    }
    let mut out: Vec<Event> = Vec::new();
    let mut j: usize = 0;
    proof {
        assert(w.skip(0int) =~= w);
        let r0 = run_insts(w);
        if r0 is Some {
            assert(view_events(out@) + r0->0 =~= r0->0);
        }
    }
    while j < insts.len()
        invariant
            j <= insts@.len(),
            w == view_insts(insts@),
            w.len() == insts@.len(),
            forall|m: int| 0 <= m < insts@.len() ==> #[trigger] w[m] == view_inst(insts@[m]),
            match run_insts(w.skip(j as int)) {
                Some(rest) => run_insts(w) == Some(view_events(out@) + rest),
                None => run_insts(w) is None,
            },
        decreases insts@.len() - j,
    {
        let piece = match run_one(&insts[j]) {
            Some(p) => p,
            None => {
                proof {
                    assert(w.skip(j as int)[0] == w[j as int]);
                    assert(run_insts(w.skip(j as int)) is None);
                }
                return None;
            },
        };
        let ghost pv = view_events(piece@);
        let ghost old_out = out@;
        let mut piece2 = piece;
        out.append(&mut piece2);
        proof {
            assert(w.skip(j as int)[0] == w[j as int]);
            assert(w.skip(j as int).drop_first() =~= w.skip(j as int + 1));
            assert(view_events(out@) =~= view_events(old_out) + pv);
            let ghost next = run_insts(w.skip(j as int + 1));
            if next is Some {
                assert(run_insts(w.skip(j as int)) == Some(pv + next->0));
                assert(view_events(old_out) + (pv + next->0) =~= (view_events(old_out) + pv)
                    + next->0);
            } else {
                assert(run_insts(w.skip(j as int)) is None);
            }
        }
        j = j + 1;
    }
    proof {
        assert(w.skip(insts@.len() as int) =~= Seq::<InstV>::empty());
        assert(run_insts(w.skip(insts@.len() as int)) == Some(Seq::<EventV>::empty()));
        assert(view_events(out@) + Seq::<EventV>::empty() =~= view_events(out@));
    }
    Some(out)
}

} // verus!
