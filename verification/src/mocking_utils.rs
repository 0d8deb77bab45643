//! The single-borrow cell: a wrapper that hands out mutable access to its
//! contents under an explicit borrowed-flag discipline.
//!
//! The cell keeps one value together with a boolean flag. A borrow is granted
//! only while the flag is clear; granting one sets the flag, and the flag
//! stays set until [`OnceMutCell::reset`] clears it through a handle that
//! proves exclusive access. The callback forms [`OnceMutCell::try_with`] and
//! [`OnceMutCell::with`] run one borrow-use-release cycle and leave the flag
//! clear again.

use vstd::prelude::*;

verus! {

/// An error that is raised on an attempt to borrow an [`OnceMutCell`] that is
/// already borrowed.
///
/// If the cell is held through an exclusive handle, [`OnceMutCell::get_mut`]
/// gives access regardless of the flag, and [`OnceMutCell::reset`] clears the
/// flag so that further borrows succeed.
#[derive(Clone, Copy, Debug, PartialEq, Eq, Hash, Structural)]
pub struct OnceMutCellBorrowedError;

impl OnceMutCellBorrowedError {
    /// A short statement of what went wrong.
    pub fn description(&self) -> (text: &'static str)
        ensures
            text@ =~= "`OnceMutCell` already borrowed"@,
    {
        proof {
            reveal_strlit("`OnceMutCell` already borrowed");
        }
        "`OnceMutCell` already borrowed"
    }
}

/// A cell that can be mutably borrowed, but only once between resets.
///
/// The cell is a two-state machine: it starts free, a granted borrow makes it
/// borrowed, and it becomes free again through [`OnceMutCell::reset`] or at
/// the end of a [`OnceMutCell::try_with`] / [`OnceMutCell::with`] callback.
/// While it is borrowed, [`OnceMutCell::try_borrow`] fails; the flag is what
/// keeps a second mutable path to the contents from being issued.
#[derive(Debug)]
pub struct OnceMutCell<T> {
    borrowed: bool,
    value: Option<T>,
}

impl<T> OnceMutCell<T> {
    /// Well-formedness: the cell always holds a value; the `Option` is only
    /// an artifact of moving the value through a callback.
    pub closed spec fn wf(&self) -> bool {
        self.value is Some
    }

    /// True when no borrow is outstanding, so a borrow may be granted.
    pub closed spec fn is_free(&self) -> bool {
        !self.borrowed
    }

    /// The wrapped value.
    pub closed spec fn value_spec(&self) -> T {
        self.value->Some_0
    }

    /// Creates a new `OnceMutCell` with the specified initial value.
    pub fn new(value: T) -> (cell: Self)
        ensures
            cell.wf(),
            cell.is_free(),
            cell.value_spec() == value,
    {
        OnceMutCell { borrowed: false, value: Some(value) }
    }

    /// Consumes the cell, returning its value.
    pub fn into_inner(self) -> (value: T)
        requires
            self.wf(),
        ensures
            value == self.value_spec(),
    {
        match self.value {
            Some(value) => value,
            None => unreached(),
        }
    }

    /// Gives access to the cell's contents through an exclusive handle,
    /// independent of the borrowed flag: the handle itself is proof that no
    /// borrow granted earlier is still alive.
    pub fn get_mut(&mut self) -> (value: &mut T)
        requires
            old(self).wf(),
        ensures
            *value == old(self).value_spec(),
            final(self).wf(),
            final(self).value_spec() == *final(value),
            final(self).is_free() == old(self).is_free(),
    {
        match &mut self.value {
            Some(value) => value,
            None => unreached(),
        }
    }

    /// Allows further borrows of the cell by clearing the borrowed flag.
    ///
    /// This is sound because the method takes an exclusive handle, which
    /// proves there is no outstanding borrow.
    pub fn reset(&mut self)
        ensures
            Self::reset_outcome(*old(self), *final(self)),
            final(self).is_free(),
            final(self).wf() == old(self).wf(),
            final(self).value_spec() == old(self).value_spec(),
    {
        self.borrowed = false;
    }

    /// What one `try_borrow` call does, as a relation between the cell
    /// before the call, the cell after it, and the value the borrower was
    /// lent: a free cell grants the borrow, lends exactly the wrapped value
    /// and comes out borrowed (its wrapped value from then on is whatever the
    /// borrower leaves through the reference); a borrowed cell refuses and is
    /// left unchanged.
    pub open spec fn try_borrow_outcome(pre: Self, post: Self, lent: Option<T>) -> bool {
        if pre.is_free() {
            &&& lent == Some(pre.value_spec())
            &&& !post.is_free()
        } else {
            &&& lent is None
            &&& post == pre
        }
    }

    /// What one `reset` call does to the cell: it comes out free, wrapping
    /// the same value as before — in particular every mutation a prior
    /// borrower made is kept.
    pub open spec fn reset_outcome(pre: Self, post: Self) -> bool {
        &&& post.is_free()
        &&& post.wf() == pre.wf()
        &&& post.value_spec() == pre.value_spec()
    }

    /// Tries to borrow the cell, returning an error if it is already
    /// borrowed. A granted borrow sets the flag, so a second `try_borrow`
    /// without an intervening [`reset`](OnceMutCell::reset) fails.
    pub fn try_borrow(&mut self) -> (result: Result<&mut T, OnceMutCellBorrowedError>)
        requires
            old(self).wf(),
        ensures
            Self::try_borrow_outcome(
                *old(self),
                *final(self),
                match result {
                    Ok(value) => Some(*value),
                    Err(_) => None,
                },
            ),
            !old(self).is_free() ==> result == Err::<&mut T, _>(OnceMutCellBorrowedError)
                && *final(self) == *old(self),
            old(self).is_free() ==> (match result {
                Ok(value) => *value == old(self).value_spec()
                    && final(self).wf()
                    && !final(self).is_free()
                    && final(self).value_spec() == *final(value),
                Err(_) => false,
            }),
    {
        if self.borrowed {
            return Err(OnceMutCellBorrowedError);
        }
        self.borrowed = true;
        match &mut self.value {
            Some(value) => Ok(value),
            None => unreached(),
        }
    }

    /// Borrows the cell; the cell must be free. A granted borrow sets the
    /// flag, so the cell refuses further borrows until it is reset.
    ///
    /// For a fallible form that reports an already-borrowed cell instead see
    /// [`try_borrow`](OnceMutCell::try_borrow).
    pub fn borrow(&mut self) -> (value: &mut T)
        requires
            old(self).wf(),
            old(self).is_free(),
        ensures
            *value == old(self).value_spec(),
            final(self).wf(),
            !final(self).is_free(),
            final(self).value_spec() == *final(value),
    {
        match self.try_borrow() {
            Ok(value) => value,
            Err(_) => unreached(),
        }
    }

    /// Tries to borrow the cell. If the cell is free, hands the value to the
    /// callback, stores the value the callback gives back, clears the flag
    /// again and returns the callback's result. If the cell is already
    /// borrowed, returns an error and changes nothing.
    ///
    /// This runs a complete borrow-use-release cycle, so unlike
    /// [`try_borrow`](OnceMutCell::try_borrow) it can be repeated without a
    /// [`reset`](OnceMutCell::reset) in between.
    pub fn try_with<R, F: FnOnce(T) -> (T, R)>(&mut self, callback: F) -> (result: Result<
        R,
        OnceMutCellBorrowedError,
    >)
        requires
            old(self).wf(),
            old(self).is_free() ==> call_requires(callback, (old(self).value_spec(),)),
        ensures
            !old(self).is_free() ==> result == Err::<R, _>(OnceMutCellBorrowedError)
                && *final(self) == *old(self),
            old(self).is_free() ==> (match result {
                Ok(output) => final(self).wf()
                    && final(self).is_free()
                    && call_ensures(
                    callback,
                    (old(self).value_spec(),),
                    (final(self).value_spec(), output),
                ),
                Err(_) => false,
            }),
    {
        if self.borrowed {
            return Err(OnceMutCellBorrowedError);
        }
        let value = match self.value.take() {
            Some(value) => value,
            None => unreached(),
        };
        let (value, output) = callback(value);
        self.value = Some(value);
        Ok(output)
    }

    /// Borrows the free cell, hands the value to the callback, stores the
    /// value the callback gives back, clears the flag again and returns the
    /// callback's result.
    ///
    /// For a fallible form that reports an already-borrowed cell instead see
    /// [`try_with`](OnceMutCell::try_with).
    pub fn with<R, F: FnOnce(T) -> (T, R)>(&mut self, callback: F) -> (result: R)
        requires
            old(self).wf(),
            old(self).is_free(),
            call_requires(callback, (old(self).value_spec(),)),
        ensures
            final(self).wf(),
            final(self).is_free(),
            call_ensures(callback, (old(self).value_spec(),), (final(self).value_spec(), result)),
    {
        match self.try_with(callback) {
            Ok(output) => output,
            Err(_) => unreached(),
        }
    }
}

/// One-shot law: two borrows in a row, with no reset in between, never both
/// succeed. The first borrow of a free cell is granted and lends the wrapped
/// value; the second is refused and leaves the cell as it found it.
pub proof fn lemma_borrow_is_one_shot<T>(
    cell: OnceMutCell<T>,
    after_first: OnceMutCell<T>,
    after_second: OnceMutCell<T>,
    first: Option<T>,
    second: Option<T>,
)
    requires
        cell.is_free(),
        OnceMutCell::try_borrow_outcome(cell, after_first, first),
        OnceMutCell::try_borrow_outcome(after_first, after_second, second),
    ensures
        first == Some(cell.value_spec()),
        second is None,
        after_second == after_first,
{
}

/// Release law: once a borrowed cell is reset, the next borrow is granted,
/// and it lends exactly the value the previous borrower left behind — every
/// mutation made through the prior reference is observed.
pub proof fn lemma_reset_enables_the_next_borrow<T>(
    borrowed: OnceMutCell<T>,
    cleared: OnceMutCell<T>,
    after: OnceMutCell<T>,
    lent: Option<T>,
)
    requires
        OnceMutCell::reset_outcome(borrowed, cleared),
        OnceMutCell::try_borrow_outcome(cleared, after, lent),
    ensures
        lent == Some(borrowed.value_spec()),
{
}

impl<T: Clone> Clone for OnceMutCell<T> {
    /// Clones the wrapped value into a fresh, free cell.
    fn clone(&self) -> (cell: Self)
        ensures
            cell.is_free(),
            cell.wf() == self.wf(),
            self.wf() ==> vstd::pervasive::cloned::<T>(self.value_spec(), cell.value_spec()),
    {
        match &self.value {
            Some(value) => OnceMutCell { borrowed: false, value: Some(value.clone()) },
            None => OnceMutCell { borrowed: false, value: None },
        }
    }
}

impl<T: Default> Default for OnceMutCell<T> {
    /// A free cell wrapping the default value of `T`.
    fn default() -> (cell: Self)
        ensures
            cell.wf(),
            cell.is_free(),
            call_ensures(<T as Default>::default, (), cell.value_spec()),
    {
        OnceMutCell::new(T::default())
    }
}

impl<T> From<T> for OnceMutCell<T> {
    /// A free cell wrapping `value`; the same as [`OnceMutCell::new`].
    fn from(value: T) -> (cell: Self)
        ensures
            cell.wf(),
            cell.is_free(),
            cell.value_spec() == value,
    {
        OnceMutCell::new(value)
    }
}

impl<T> vstd::std_specs::convert::FromSpecImpl<T> for OnceMutCell<T> {
    closed spec fn obeys_from_spec() -> bool {
        true
    }

    closed spec fn from_spec(value: T) -> Self {
        OnceMutCell { borrowed: false, value: Some(value) }
    }
}

} // verus!
