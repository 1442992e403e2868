//! The cell that holds a native value owned by the script heap.
//!
//! Script code keeps a reference to the value while native code takes
//! access for the length of one call. Access follows the discipline of a
//! single-threaded interior-mutability cell: any number of shared borrows
//! at a time, or one exclusive borrow. A borrow that would break the
//! discipline is refused where it is attempted.

use vstd::prelude::*;

verus! {

/// Why a borrow was refused.
#[derive(Debug, Clone, Copy, PartialEq, Eq)]
pub enum BorrowError {
    /// An exclusive borrow is outstanding.
    AlreadyMutablyBorrowed,
    /// A shared borrow is outstanding, or no further one can be counted.
    AlreadyBorrowed,
}

/// The borrows that are outstanding on a cell.
#[derive(Debug, Clone, Copy, PartialEq, Eq)]
pub enum BorrowState {
    /// None.
    Unused,
    /// This many shared borrows, at least one.
    Reading(usize),
    /// One exclusive borrow.
    Writing,
}

/// A native value shared with the script heap, with its outstanding
/// borrows.
#[derive(Debug)]
pub struct ForeignCell<T> {
    value: T,
    readers: usize,
    writing: bool,
}

impl<T> ForeignCell<T> {
    #[verifier::type_invariant]
    spec fn consistent(self) -> bool {
        !(self.writing && self.readers > 0)
    }

    /// The value in the cell.
    pub closed spec fn content(self) -> T {
        self.value
    }

    /// The outstanding borrows.
    pub closed spec fn state(self) -> BorrowState {
        if self.writing {
            BorrowState::Writing
        } else if self.readers > 0 {
            BorrowState::Reading(self.readers)
        } else {
            BorrowState::Unused
        }
    }

    /// Wraps a value; nothing is borrowed.
    pub fn new(value: T) -> (cell: Self)
        ensures
            cell.content() == value,
            cell.state() == BorrowState::Unused,
    {
        Self { value, readers: 0, writing: false }
    }

    /// Takes a shared borrow. Refused while an exclusive borrow is
    /// outstanding, and where the count of shared borrows is exhausted; a
    /// refusal changes nothing.
    pub fn try_borrow(&mut self) -> (r: Result<(), BorrowError>)
        ensures
            final(self).content() == old(self).content(),
            match old(self).state() {
                BorrowState::Unused => r is Ok && final(self).state() == BorrowState::Reading(1),
                BorrowState::Reading(n) => if n < usize::MAX {
                    r is Ok && final(self).state() == BorrowState::Reading((n + 1) as usize)
                } else {
                    r == Err::<(), BorrowError>(BorrowError::AlreadyBorrowed) && final(self).state()
                        == old(self).state()
                },
                BorrowState::Writing => r == Err::<(), BorrowError>(
                    BorrowError::AlreadyMutablyBorrowed,
                ) && final(self).state() == old(self).state(),
            },
    {
        proof {
            use_type_invariant(&*self);
        }
        if self.writing {
            Err(BorrowError::AlreadyMutablyBorrowed)
        } else if self.readers == usize::MAX {
            Err(BorrowError::AlreadyBorrowed)
        } else {
            self.readers = self.readers + 1;
            Ok(())
        }
    }

    /// Takes the exclusive borrow. Granted only while nothing is borrowed;
    /// a refusal changes nothing.
    pub fn try_borrow_mut(&mut self) -> (r: Result<(), BorrowError>)
        ensures
            final(self).content() == old(self).content(),
            match old(self).state() {
                BorrowState::Unused => r is Ok && final(self).state() == BorrowState::Writing,
                BorrowState::Reading(_) => r == Err::<(), BorrowError>(
                    BorrowError::AlreadyBorrowed,
                ) && final(self).state() == old(self).state(),
                BorrowState::Writing => r == Err::<(), BorrowError>(
                    BorrowError::AlreadyMutablyBorrowed,
                ) && final(self).state() == old(self).state(),
            },
    {
        proof {
            use_type_invariant(&*self);
        }
        if self.writing {
            Err(BorrowError::AlreadyMutablyBorrowed)
        } else if self.readers > 0 {
            Err(BorrowError::AlreadyBorrowed)
        } else {
            self.writing = true;
            Ok(())
        }
    }

    /// Gives back one shared borrow.
    pub fn release(&mut self)
        requires
            old(self).state() is Reading,
        ensures
            final(self).content() == old(self).content(),
            final(self).state() == if old(self).state()->Reading_0 == 1 {
                BorrowState::Unused
            } else {
                BorrowState::Reading((old(self).state()->Reading_0 - 1) as usize)
            },
    {
        proof {
            use_type_invariant(&*self);
        }
        self.readers = self.readers - 1;
    }

    /// Gives back the exclusive borrow.
    pub fn release_mut(&mut self)
        requires
            old(self).state() == BorrowState::Writing,
        ensures
            final(self).content() == old(self).content(),
            final(self).state() == BorrowState::Unused,
    {
        proof {
            use_type_invariant(&*self);
        }
        self.writing = false;
    }

    /// Reads the value under a shared or the exclusive borrow.
    pub fn get(&self) -> (value: &T)
        requires
            self.state() != BorrowState::Unused,
        ensures
            *value == self.content(),
    {
        &self.value
    }

    /// Replaces the value under the exclusive borrow and returns the one
    /// that was there.
    pub fn replace(&mut self, value: T) -> (previous: T)
        requires
            old(self).state() == BorrowState::Writing,
        ensures
            previous == old(self).content(),
            final(self).content() == value,
            final(self).state() == BorrowState::Writing,
    {
        proof {
            use_type_invariant(&*self);
        }
        let mut value = value;
        core::mem::swap(&mut self.value, &mut value);
        value
    }

    /// Takes the value out of a cell on which nothing is borrowed.
    pub fn into_inner(self) -> (value: T)
        requires
            self.state() == BorrowState::Unused,
        ensures
            value == self.content(),
    {
        self.value
    }
}

} // verus!
