//! The one-time-initialization cell.
//!
//! Hardware singletons (consoles, descriptor tables, the boot context) are
//! built once, at a point decided by boot-time control flow, and then read —
//! or, for the mutable variant, exclusively written — for the rest of the
//! kernel's life. The cell holds "nothing yet" or a value of `T`; its view is
//! that option. Initializing twice is not rejected: the second value simply
//! replaces the first, and the contract of [`LazyInner::init`] says so.
//! Reading before initialization, undefined in a raw cell, is ruled out here
//! by precondition, with checked `try_get` variants for callers that cannot
//! guarantee ordering.

use vstd::prelude::*;

verus! {

/// Storage that either holds a value of `T` or does not yet; its view is
/// `Some` of the stored value once one was stored.
pub struct ProbablyInit<T> {
    val: Option<T>,
}

impl<T> View for ProbablyInit<T> {
    type V = Option<T>;

    closed spec fn view(&self) -> Option<T> {
        self.val
    }
}

impl<T> ProbablyInit<T> {
    /// Empty storage.
    pub fn new_uninit() -> (r: Self)
        ensures
            r@ is None,
    {
        ProbablyInit { val: None }
    }

    /// Storage holding `val`.
    pub fn new(val: T) -> (r: Self)
        ensures
            r@ == Some(val),
    {
        ProbablyInit { val: Some(val) }
    }

    /// Whether a value was stored.
    pub fn is_init(&self) -> (r: bool)
        ensures
            r == (self@ is Some),
    {
        self.val.is_some()
    }

    /// The stored value; only for storage that holds one.
    pub fn get(&self) -> (r: &T)
        requires
            self@ is Some,
        ensures
            *r == self@->Some_0,
    {
        match &self.val {
            Some(v) => v,
            None => unreached(),
        }
    }

    /// The stored value, exclusively; only for storage that holds one.
    pub fn get_mut(&mut self) -> (r: &mut T)
        requires
            old(self)@ is Some,
        ensures
            *r == old(self)@->Some_0,
            final(self)@ == Some(*final(r)),
    {
        match &mut self.val {
            Some(v) => v,
            None => unreached(),
        }
    }
}

/// The one-time-initialization cell: created empty, filled once by the boot
/// sequence, then read for the rest of the program's life. `MUT` picks the
/// access mode: `false` for read-only after initialization, `true` for
/// exclusive-mutable. Its view is `Some` of the published value once
/// [`LazyInner::init`] ran.
pub struct LazyInner<T, const MUT: bool> {
    inner: ProbablyInit<T>,
}

/// The read-only-after-initialization cell.
pub type Lazy<T> = LazyInner<T, false>;

/// The exclusive-mutable-after-initialization cell.
pub type LazyMut<T> = LazyInner<T, true>;

impl<T, const MUT: bool> View for LazyInner<T, MUT> {
    type V = Option<T>;

    closed spec fn view(&self) -> Option<T> {
        self.inner@
    }
}

impl<T, const MUT: bool> LazyInner<T, MUT> {
    /// An empty cell.
    pub fn new() -> (r: Self)
        ensures
            r@ is None,
    {
        LazyInner { inner: ProbablyInit::new_uninit() }
    }

    /// Publishes `val` into the cell. A second call is not rejected: the
    /// last value written is the one observed afterwards.
    pub fn init(&mut self, val: T)
        ensures
            final(self)@ == Some(val),
    {
        self.inner = ProbablyInit::new(val);
    }

    /// Whether the cell was initialized.
    pub fn is_init(&self) -> (r: bool)
        ensures
            r == (self@ is Some),
    {
        self.inner.is_init()
    }

    /// The published value; only for an initialized cell.
    pub fn get(&self) -> (r: &T)
        requires
            self@ is Some,
        ensures
            *r == self@->Some_0,
    {
        self.inner.get()
    }

    /// The published value, or nothing before initialization; for callers
    /// that cannot guarantee ordering, such as fault reporting.
    pub fn try_get(&self) -> (r: Option<&T>)
        ensures
            r is Some <==> self@ is Some,
            r is Some ==> *r->Some_0 == self@->Some_0,
    {
        if self.inner.is_init() {
            Some(self.inner.get())
        } else {
            None
        }
    }
}

impl<T> LazyMut<T> {
    /// The published value, exclusively; only for an initialized cell.
    pub fn get_mut(&mut self) -> (r: &mut T)
        requires
            old(self)@ is Some,
        ensures
            *r == old(self)@->Some_0,
            final(self)@ == Some(*final(r)),
    {
        self.inner.get_mut()
    }

    /// The published value, exclusively, or nothing before initialization.
    pub fn try_get_mut(&mut self) -> (r: Option<&mut T>)
        ensures
            r is Some <==> old(self)@ is Some,
            old(self)@ is None ==> final(self)@ == old(self)@,
            r matches Some(m) ==> *m == old(self)@->Some_0 && final(self)@ == Some(*final(m)),
    {
        if self.inner.is_init() {
            Some(self.inner.get_mut())
        } else {
            None
        }
    }
}

} // verus!
