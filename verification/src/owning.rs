use vstd::prelude::*;

verus! {

/// An owning box: the sole owner of one heap allocation holding exactly
/// one value of type `T`.
///
/// The handle to the allocation is a `Box`, the covariant non-null form:
/// the address is never null, and a box over a more substitutable type
/// may stand in for a box over a less substitutable one. The storage is
/// released exactly once — when the box is consumed by `release`, or when
/// it falls out of scope — and that release step never reads or writes
/// the contained value, so the box may own a borrow whose referent is
/// needed again right after the box is gone.
pub struct Boks<T> {
    p: Box<T>,
}

impl<T> View for Boks<T> {
    type V = T;

    /// The value the box owns.
    closed spec fn view(&self) -> T {
        *self.p
    }
}

impl<T> Boks<T> {
    /// Moves `t` into freshly allocated storage and returns the box that
    /// owns it; reading the box back gives `t` again. Allocation failure
    /// aborts the process and is never surfaced as a value.
    pub fn ne(t: T) -> (r: Self)
        ensures
            r@ == t,
    {
        Boks { p: Box::new(t) }
    }

    /// Shared access to the contained value.
    pub fn borrow(&self) -> (r: &T)
        ensures
            *r == self@,
    {
        &*self.p
    }

    /// Exclusive access to the contained value. The box afterwards owns
    /// exactly what the caller leaves behind the returned reference.
    pub fn borrow_mut(&mut self) -> (r: &mut T)
        ensures
            *r == old(self)@,
            final(self)@ == *final(r),
    {
        &mut *self.p
    }

    /// Consumes the box and releases its storage. Taking the box by value
    /// makes this the one and only release: no operation can see the box
    /// afterwards, so a second release or a use after release cannot be
    /// written. The release itself does not read or write the contained
    /// value; the value's own drop glue runs, and then the storage is
    /// freed. Letting the box fall out of scope performs the same single
    /// release.
    pub fn release(self) {
    }
}

} // verus!
