use vstd::prelude::*;

verus! {

/// A value that is either borrowed or owned, and read the same way in both
/// cases.
pub struct Indirect<'a, T>(IndirectImpl<'a, T>);

enum IndirectImpl<'a, T> {
    Borrowed { borrowed: &'a T },
    Owned { owned: Box<T> },
}

impl<'a, T> View for Indirect<'a, T> {
    type V = T;

    closed spec fn view(&self) -> T {
        match self.0 {
            IndirectImpl::Borrowed { borrowed } => *borrowed,
            IndirectImpl::Owned { owned } => *owned,
        }
    }
}

impl<'a, T> Indirect<'a, T> {
    pub closed spec fn is_borrowed(&self) -> bool {
        self.0 is Borrowed
    }

    pub fn from_borrowed(borrowed: &'a T) -> (r: Self)
        ensures
            r@ == *borrowed,
            r.is_borrowed(),
    {
        Indirect(IndirectImpl::Borrowed { borrowed })
    }

    pub fn from_owned(owned: Box<T>) -> (r: Self)
        ensures
            r@ == *owned,
            !r.is_borrowed(),
    {
        Indirect(IndirectImpl::Owned { owned })
    }

    pub fn inner(&self) -> (r: &T)
        ensures
            *r == self@,
    {
        match &self.0 {
            IndirectImpl::Borrowed { borrowed } => *borrowed,
            IndirectImpl::Owned { owned } => &**owned,
        }
    }

    /// The value of an `Indirect` that borrows, for as long as what it
    /// borrows from lives.
    pub fn const_inner(&self) -> (r: &'a T)
        requires
            self.is_borrowed(),
        ensures
            *r == self@,
    {
        match &self.0 {
            IndirectImpl::Borrowed { borrowed } => *borrowed,
            IndirectImpl::Owned { .. } => vstd::pervasive::unreached(),
        }
    }
}

impl<'a, T: Clone> Clone for Indirect<'a, T> {
    /// A borrowing `Indirect` borrows the same value again; an owning one
    /// gets a clone of its value.
    fn clone(&self) -> (r: Self)
        ensures
            r.is_borrowed() == self.is_borrowed(),
            self.is_borrowed() ==> r@ == self@,
            !self.is_borrowed() ==> cloned::<T>(self@, r@),
    {
        match &self.0 {
            IndirectImpl::Borrowed { borrowed } => Indirect(IndirectImpl::Borrowed { borrowed: *borrowed }),
            IndirectImpl::Owned { owned } => {
                let value: T = (**owned).clone();
                Indirect(IndirectImpl::Owned { owned: Box::new(value) })
            },
        }
    }
}

} // verus!
