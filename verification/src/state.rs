//! The data shapes and the transition between them.

use vstd::prelude::*;

verus! {

/// The data that every state variant carries.
#[derive(Clone, Copy, Debug, PartialEq, Eq, Structural)]
pub struct Context {
    pub x: u16,
}

/// One of the two record types; owns its context.
#[derive(Debug, PartialEq, Eq, Structural)]
pub struct Bar {
    pub cx: Context,
}

/// The other record type; owns its context and is consumed by
/// [`Baz::process_stuff`].
#[derive(Debug, PartialEq, Eq, Structural)]
pub struct Baz {
    pub cx: Context,
}

/// Either of the two records.
#[derive(Debug, PartialEq, Eq, Structural)]
pub enum State {
    Bar(Bar),
    Baz(Baz),
}

impl State {
    /// The context that the active variant carries.
    pub open spec fn context(self) -> Context {
        match self {
            State::Bar(bar) => bar.cx,
            State::Baz(baz) => baz.cx,
        }
    }
}

impl Baz {
    /// The state that follows this one: always the `Bar` variant, holding
    /// this value's context.
    pub open spec fn successor(self) -> State {
        State::Bar(Bar { cx: self.cx })
    }

    /// Consumes the value and hands its context on to the state that
    /// follows. The step is total and, for now, always selects `Bar`; no
    /// rule for selecting any other variant is defined.
    pub fn process_stuff(self) -> (next: State)
        ensures
            next == self.successor(),
            next is Bar,
            next.context() == self.cx,
    {
        State::Bar(Bar { cx: self.cx })
    }
}

} // verus!
