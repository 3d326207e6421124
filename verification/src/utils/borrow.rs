//! A value that is either borrowed or owned in a box, read through a reference.

use vstd::prelude::*;

verus! {

/// Like `Cow<T>` but only for reading from, not writing into.
/// Uses [Box] to own instead of the bare type.
pub enum CowBoxDeref<'a, T> {
    Borrowed(&'a T),
    Owned(Box<T>),
}

impl<'a, T> CowBoxDeref<'a, T> {
    /// The value, whether borrowed or owned.
    pub open spec fn value(&self) -> T {
        match *self {
            Self::Borrowed(borrowed) => *borrowed,
            Self::Owned(owned) => *owned,
        }
    }

    /// A reference to the value, whether borrowed or owned.
    pub fn deref(&self) -> (r: &T)
        ensures
            *r == self.value(),
    {
        match self {
            Self::Borrowed(borrowed) => borrowed,
            Self::Owned(owned) => &**owned,
        }
    }
}

} // verus!
