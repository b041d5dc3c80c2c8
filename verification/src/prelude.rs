//! Small general-purpose items shared across the crate.

use vstd::prelude::*;

verus! {

/// A transparent newtype wrapper, handy where a foreign value needs a
/// local type to hang impls on.
pub struct W<T>(pub T);

impl<T> core::ops::Deref for W<T> {
    type Target = T;

    fn deref(&self) -> (r: &T)
        ensures
            *r == self.0,
    {
        &self.0
    }
}

impl<T> core::ops::DerefMut for W<T> {
    fn deref_mut(&mut self) -> (r: &mut T)
        ensures
            *r == old(self).0,
            final(self).0 == *final(r),
    {
        &mut self.0
    }
}

} // verus!
