//! What the contracts of the two inspection methods amount to on each variant,
//! for every payload and every callback.

use crate::{callable_on_break, callable_on_continue, returned_on_break, returned_on_continue};
use core::ops::ControlFlow;
use vstd::prelude::*;

verus! {

/// On `Break(b)`, `inspect_break` asks of the callback exactly that it accepts
/// `b`, and tells of it exactly that it has returned from a call on `b`.
pub proof fn lemma_inspect_break_on_break<B, C, F: FnOnce(&B)>(b: B, f: F)
    ensures
        callable_on_break(f, ControlFlow::<B, C>::Break(b)) <==> f.requires((&b,)),
        returned_on_break(f, ControlFlow::<B, C>::Break(b)) <==> f.ensures((&b,), ()),
{
}

/// On `Continue(c)`, `inspect_break` asks nothing of the callback, which may
/// be one that cannot be called on any argument, and tells nothing of it: the
/// callback is left alone.
pub proof fn lemma_inspect_break_on_continue<B, C, F: FnOnce(&B)>(c: C, f: F)
    ensures
        callable_on_break(f, ControlFlow::<B, C>::Continue(c)),
        returned_on_break(f, ControlFlow::<B, C>::Continue(c)),
{
}

/// On `Continue(c)`, `inspect_continue` asks of the callback exactly that it
/// accepts `c`, and tells of it exactly that it has returned from a call on
/// `c`.
pub proof fn lemma_inspect_continue_on_continue<B, C, F: FnOnce(&C)>(c: C, f: F)
    ensures
        callable_on_continue(f, ControlFlow::<B, C>::Continue(c)) <==> f.requires((&c,)),
        returned_on_continue(f, ControlFlow::<B, C>::Continue(c)) <==> f.ensures((&c,), ()),
{
}

/// On `Break(b)`, `inspect_continue` asks nothing of the callback, which may
/// be one that cannot be called on any argument, and tells nothing of it: the
/// callback is left alone.
pub proof fn lemma_inspect_continue_on_break<B, C, F: FnOnce(&C)>(b: B, f: F)
    ensures
        callable_on_continue(f, ControlFlow::<B, C>::Break(b)),
        returned_on_continue(f, ControlFlow::<B, C>::Break(b)),
{
}

} // verus!
