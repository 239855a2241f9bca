//! Opaque handles: native values carried through the script runtime under a
//! declared type name, reachable only by a caller that names that type, and
//! with at most one exclusive view outstanding at a time.

use vstd::prelude::*;

verus! {

broadcast use vstd::string::to_string_from_display_ensures_for_str;

/// Why a view of a handle was refused.
#[derive(Debug, PartialEq, Eq, Structural)]
pub enum BridgeError {
    /// The handle holds a value of another declared type.
    TypeMismatch,
    /// An exclusive view is outstanding, or a shared one where an exclusive
    /// one was asked for.
    AlreadyBorrowed,
}

/// The views of a handle that are outstanding.
#[derive(Debug, Clone, Copy, PartialEq, Eq, Structural)]
pub enum BorrowState {
    /// No view.
    Free,
    /// Shared views: one more than the count held.
    Shared(usize),
    /// One exclusive view.
    Exclusive,
}

/// A native value tagged with a declared type name.
pub struct OpaqueHandle<T> {
    type_tag: String,
    value: T,
    state: BorrowState,
}

impl<T> OpaqueHandle<T> {
    /// The declared type name.
    pub closed spec fn tag(&self) -> Seq<char> {
        self.type_tag@
    }

    /// The wrapped value.
    pub closed spec fn inner(&self) -> T {
        self.value
    }

    /// The outstanding views.
    pub closed spec fn borrow_state(&self) -> BorrowState {
        self.state
    }

    /// Wraps `value` under the type name `type_tag`, with no view outstanding.
    pub fn wrap(type_tag: &str, value: T) -> (r: Self)
        ensures
            r.tag() == type_tag@,
            r.inner() == value,
            r.borrow_state() == BorrowState::Free,
    {
        OpaqueHandle { type_tag: type_tag.to_string(), value, state: BorrowState::Free }
    }

    /// The declared type name.
    pub fn type_tag(&self) -> (r: &str)
        ensures
            r@ == self.tag(),
    {
        self.type_tag.as_str()
    }

    /// The outstanding views.
    pub fn current_state(&self) -> (r: BorrowState)
        ensures
            r == self.borrow_state(),
    {
        self.state
    }

    /// Whether a view is outstanding.
    pub fn is_borrowed(&self) -> (r: bool)
        ensures
            r == (self.borrow_state() != BorrowState::Free),
    {
        !matches!(self.state, BorrowState::Free)
    }

    /// Takes a shared view of the value as a `type_tag`. Refused when the
    /// type differs or an exclusive view is outstanding.
    pub fn downcast_ref(&mut self, type_tag: &str) -> (r: Result<(), BridgeError>)
        ensures
            final(self).tag() == old(self).tag(),
            final(self).inner() == old(self).inner(),
            old(self).tag() != type_tag@ ==> r == Err::<(), BridgeError>(BridgeError::TypeMismatch),
            old(self).tag() == type_tag@ ==> match old(self).borrow_state() {
                BorrowState::Free => r is Ok && final(self).borrow_state() == BorrowState::Shared(0),
                BorrowState::Shared(n) => if n < usize::MAX {
                    r is Ok && final(self).borrow_state() == BorrowState::Shared((n + 1) as usize)
                } else {
                    r == Err::<(), BridgeError>(BridgeError::AlreadyBorrowed)
                },
                BorrowState::Exclusive => r == Err::<(), BridgeError>(BridgeError::AlreadyBorrowed),
            },
            r is Err ==> final(self).borrow_state() == old(self).borrow_state(),
    {
        if self.type_tag.as_str().to_string() != type_tag.to_string() {
            return Err(BridgeError::TypeMismatch);
        }
        match self.state {
            BorrowState::Free => {
                self.state = BorrowState::Shared(0);
                Ok(())
            },
            BorrowState::Shared(n) => {
                if n < usize::MAX {
                    self.state = BorrowState::Shared(n + 1);
                    Ok(())
                } else {
                    Err(BridgeError::AlreadyBorrowed)
                }
            },
            BorrowState::Exclusive => Err(BridgeError::AlreadyBorrowed),
        }
    }

    /// Takes the exclusive view of the value as a `type_tag`. Refused when
    /// the type differs or any view is outstanding.
    pub fn downcast_mut(&mut self, type_tag: &str) -> (r: Result<(), BridgeError>)
        ensures
            final(self).tag() == old(self).tag(),
            final(self).inner() == old(self).inner(),
            old(self).tag() != type_tag@ ==> r == Err::<(), BridgeError>(BridgeError::TypeMismatch),
            old(self).tag() == type_tag@ && old(self).borrow_state() != BorrowState::Free
                ==> r == Err::<(), BridgeError>(BridgeError::AlreadyBorrowed),
            old(self).tag() == type_tag@ && old(self).borrow_state() == BorrowState::Free
                ==> r is Ok,
            r is Ok ==> final(self).borrow_state() == BorrowState::Exclusive,
            r is Err ==> final(self).borrow_state() == old(self).borrow_state(),
    {
        if self.type_tag.as_str().to_string() != type_tag.to_string() {
            return Err(BridgeError::TypeMismatch);
        }
        match self.state {
            BorrowState::Free => {
                self.state = BorrowState::Exclusive;
                Ok(())
            },
            _ => Err(BridgeError::AlreadyBorrowed),
        }
    }

    /// Gives up one outstanding view.
    pub fn release(&mut self)
        ensures
            final(self).tag() == old(self).tag(),
            final(self).inner() == old(self).inner(),
            final(self).borrow_state() == match old(self).borrow_state() {
                BorrowState::Shared(n) => if n > 0 {
                    BorrowState::Shared((n - 1) as usize)
                } else {
                    BorrowState::Free
                },
                _ => BorrowState::Free,
            },
    {
        self.state = match self.state {
            BorrowState::Shared(n) => if n > 0 {
                BorrowState::Shared(n - 1)
            } else {
                BorrowState::Free
            },
            _ => BorrowState::Free,
        };
    }

    /// Reads the value through an outstanding view.
    pub fn get(&self) -> (r: &T)
        requires
            self.borrow_state() != BorrowState::Free,
        ensures
            *r == self.inner(),
    {
        &self.value
    }

    /// Reaches the value through the outstanding exclusive view.
    pub fn get_mut(&mut self) -> (r: &mut T)
        requires
            old(self).borrow_state() == BorrowState::Exclusive,
        ensures
            *r == old(self).inner(),
            final(self).inner() == *final(r),
            final(self).tag() == old(self).tag(),
            final(self).borrow_state() == old(self).borrow_state(),
    {
        &mut self.value
    }

    /// Unwraps the value.
    pub fn into_inner(self) -> (r: T)
        ensures
            r == self.inner(),
    {
        self.value
    }
}

} // verus!
