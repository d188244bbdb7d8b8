//! The single-core mutual-exclusion cell: exclusive, serialized access to a
//! protected value through a scoped operation. On one execution context
//! with no preemption there is nothing to block on; the cell exists to make
//! sharing explicit and serialized. Re-entrant acquisition from within the
//! operation is architecturally prevented: acquiring needs `&mut` access to
//! the cell, and the operation holds the protected value itself, not the
//! cell, for its whole scope.

use vstd::prelude::*;

verus! {

/// Owns exactly one instance of `T`; access only through
/// [`Self::with_exclusive_access`]. Created once at process start, lives
/// for the process lifetime, never destroyed.
pub struct ProtectedValue<T> {
    value: Option<T>,
}

impl<T> ProtectedValue<T> {
    /// The cell holds its value: true from construction on, except inside
    /// the scoped operation, which no second acquisition can overlap.
    pub closed spec fn wf(&self) -> bool {
        self.value is Some
    }

    /// The protected value.
    pub closed spec fn value_spec(&self) -> T
        recommends
            self.wf(),
    {
        self.value.unwrap()
    }

    pub fn new(initial: T) -> (p: Self)
        ensures
            p.wf(),
            p.value_spec() == initial,
    {
        ProtectedValue { value: Some(initial) }
    }

    /// Run `op` with exclusive ownership of the protected value; the value
    /// the operation hands back becomes the new protected value, and the
    /// operation's other result is returned. Whatever `op` promises of its
    /// result holds of the cell's new value paired with the returned one.
    pub fn with_exclusive_access<R, F: FnOnce(T) -> (T, R)>(&mut self, op: F) -> (r: R)
        requires
            old(self).wf(),
            call_requires(op, (old(self).value_spec(),)),
        ensures
            final(self).wf(),
            call_ensures(op, (old(self).value_spec(),), (final(self).value_spec(), r)),
    {
        let v = self.value.take().unwrap();
        let (v2, r) = op(v);
        self.value = Some(v2);
        r
    }
}

} // verus!
