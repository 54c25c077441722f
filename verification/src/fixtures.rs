use std::io::Write;
use vstd::prelude::*;

verus! {

/// A wrapper that owns its value directly and — unlike the owning box —
/// reads the value at destruction time: dropping it prints the value's
/// debug text, exactly once. A borrowed value inside it must therefore
/// stay valid until the wrapper itself has been dropped, even when the
/// wrapper sits inside a box whose own release imposes no such demand.
pub struct Oisann<T: core::fmt::Debug> {
    value: T,
}

impl<T: core::fmt::Debug> View for Oisann<T> {
    type V = T;

    /// The value the wrapper owns.
    closed spec fn view(&self) -> T {
        self.value
    }
}

impl<T: core::fmt::Debug> Oisann<T> {
    /// Takes ownership of `t`; the wrapper will read it again when it is
    /// dropped.
    pub fn ne(t: T) -> (r: Self)
        ensures
            r@ == t,
    {
        Oisann { value: t }
    }
}

impl<T: core::fmt::Debug> Drop for Oisann<T> {
    /// The observing destructor. Relies on `writeln` to standard output
    /// with the value's `core::fmt::Debug` rendering: it emits the debug
    /// text and a newline once, ignores write errors, and does not unwind.
    #[verifier::external_body]
    fn drop(&mut self)
        opens_invariants none
        no_unwind
    {
        let mut out = std::io::stdout();
        let _ = writeln!(out, "{:?}", self.value);
    }
}

/// A producer that is exhausted from the start: asking it for the next
/// element always answers that none remains. Its type parameter only
/// describes what a produced element would be — the marker field is
/// function-shaped, so no instance of `T` is ever stored, owned or
/// dropped, and the producer places no validity or destruction
/// obligation on `T`.
pub struct Empty<T> {
    marker: Ghost<spec_fn() -> T>,
}

impl<T> View for Empty<T> {
    type V = Seq<T>;

    /// The elements the producer has yet to yield: none, ever.
    closed spec fn view(&self) -> Seq<T> {
        Seq::empty()
    }
}

/// Law: the empty producer is exhausted from the start and stays so — in
/// every state it may be in, no element remains to be yielded.
pub proof fn lemma_empty_producer_exhausted<T>(e: &Empty<T>)
    ensures
        e@.len() == 0,
{
}

impl<T> Empty<T> {
    /// The empty producer.
    pub fn ne() -> (r: Self)
        ensures
            r@.len() == 0,
    {
        Empty { marker: Ghost(arbitrary()) }
    }

    /// Signals that no element remains. Every call answers the same way,
    /// and the producer is unchanged by it, so any number of calls — now
    /// or later — never yields a value.
    pub fn next(&mut self) -> (r: Option<T>)
        ensures
            r is None,
            *final(self) == *old(self),
    {
        None
    }
}

} // verus!
