//! What holds of the transition on every input.

use vstd::prelude::*;
use crate::state::{Baz, Context};

verus! {

/// Wrapping any context in a `Baz` and taking the step gives the `Bar`
/// variant, and the context inside it equals the one that went in, field
/// for field.
pub proof fn lemma_step_keeps_context(c: Context)
    ensures
        (Baz { cx: c }).successor() is Bar,
        (Baz { cx: c }).successor().context() == c,
        (Baz { cx: c }).successor().context().x == c.x,
{
}

/// The step is a function of its input: equal inputs give equal outputs.
pub proof fn lemma_step_deterministic(a: Baz, b: Baz)
    requires
        a == b,
    ensures
        a.successor() == b.successor(),
{
}

/// The step never gives the `Baz` variant.
pub proof fn lemma_step_never_baz(b: Baz)
    ensures
        !(b.successor() is Baz),
{
}

} // verus!
