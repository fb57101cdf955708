//! The calling-convention adapter between the script interpreter and a
//! replacement routine.
//!
//! The interpreter invokes a replacement as if it were one of its own
//! inlined opcode handlers: it passes an agent context and a variadic
//! arguments pointer, and expects control to resume inside its
//! interpretation loop rather than through an ordinary return. The
//! adapter therefore performs exactly two steps, in order: invoke the
//! user handler with the context alone, then transfer control to the
//! interpreter's resume point. The resume point is an opaque contract of
//! the interpreter collaborator; nothing here encodes it. The adapter
//! adds no exception boundary: a failing handler is allowed to take the
//! process down, since the interpreter's state would otherwise be left
//! half-updated.

use vstd::prelude::*;

verus! {

/// One step of the adapter's control transfer.
#[derive(Clone, Copy, Debug, PartialEq, Eq, Structural)]
pub enum AdapterStep {
    /// Invoke the user handler, passing the agent context alone.
    InvokeHandler { context: u64 },
    /// Resume the interpreter at its follow-up instruction; not an
    /// ordinary return.
    ResumeInterpreter,
}

/// The adapter's behaviour for one interpreter callback: the handler
/// invocation with just the context, then the resume transfer. The
/// variadic pointer the interpreter passes is ignored, which the
/// contract shows by not depending on it.
pub fn adapter_dispatch(context: u64, variadic: u64) -> (r: Vec<AdapterStep>)
    ensures
        r@ == seq![
            AdapterStep::InvokeHandler { context },
            AdapterStep::ResumeInterpreter,
        ],
{
    let mut steps: Vec<AdapterStep> = Vec::new();
    steps.push(AdapterStep::InvokeHandler { context });
    steps.push(AdapterStep::ResumeInterpreter);
    proof {
        assert(steps@ =~= seq![
            AdapterStep::InvokeHandler { context },
            AdapterStep::ResumeInterpreter,
        ]);
    }
    steps
}

} // verus!
