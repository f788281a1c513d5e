//! A value that a Java object keeps on this side, lent out for the length of
//! one call.

use vstd::prelude::*;

verus! {

pub struct JavaStoredObject<T> {
    /// The value, while it is lent out.
    pub obj: Option<Box<T>>,
}

impl<T> JavaStoredObject<T> {
    /// Lets `func` work on the value in place and hands back what it returns:
    /// `func` is called once, on the value as it stood, and the value is left
    /// as `func` left it.
    pub fn modify<F, R>(&mut self, mut func: F) -> (r: R) where F: FnMut(&mut T) -> R
        requires
            old(self).obj is Some,
            forall|value: &mut T| #[trigger] func.requires((value,)),
        ensures
            final(self).obj is Some,
            exists|value: &mut T|
                *value == *old(self).obj->0 && *final(value) == *final(self).obj->0
                    && #[trigger] func.ensures((value,), r),
    {
        match &mut self.obj {
            Some(value) => {
                let inner: &mut T = &mut **value;
                func(inner)
            },
            None => vstd::pervasive::unreached(),
        }
    }
}

} // verus!
