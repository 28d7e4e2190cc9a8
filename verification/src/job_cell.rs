//! The job cell: a value with one owner and any number of references that
//! are checked when they are used.
//!
//! A job's captured state outlives the scope that made it, so references to
//! it cannot be borrows that the compiler follows. A `JobCell` owns the
//! value; `Ref` and `MutRef` are handles on it that can be moved into a job.
//! The cell keeps a borrow state, and every request is judged by it: a
//! request that would put an exclusive reference beside another one is
//! refused with `AliasingViolation`, and any read or write through a
//! reference after the cell is destroyed with `DanglingAccess`. Nothing is
//! ever read from a value that has no owner.
//!
//! A shared reference can be copied; the copies hold one borrow together.
//! A reference is given back with `release`, and the cell is given up with
//! `destroy`. A reference that is forgotten instead stays counted, and a
//! cell that is forgotten instead stays alive for its references.

use std::sync::Arc;
use vstd::prelude::*;
use vstd::rwlock::{RwLock, RwLockPredicate};
use crate::borrow_state::{shared_limit, Access, BorrowState, Borrows, CellError};

verus! {

/// A value together with its borrow state, in the hands of one holder.
pub struct CellState<T> {
    value: T,
    borrows: BorrowState,
}

impl<T> CellState<T> {
    /// The value kept.
    pub closed spec fn value(&self) -> T {
        self.value
    }

    /// The borrow state.
    pub closed spec fn borrows(&self) -> Borrows {
        self.borrows@
    }

    /// The requests that were put to the cell since it was made, in order.
    pub closed spec fn history(&self) -> Seq<Access> {
        self.borrows.history()
    }

    /// The borrow state is what the history of the cell leaves of a fresh
    /// one.
    pub closed spec fn wf(&self) -> bool {
        self.borrows.wf()
    }

    /// In every cell, whatever was asked of it, the exclusive reference is
    /// not out together with a shared one.
    pub proof fn lemma_rule_kept(&self)
        requires
            self.wf(),
        ensures
            self.borrows() == crate::borrow_state::life(self.history(), shared_limit()),
            self.borrows().exclusive_or_shared(),
    {
        self.borrows.lemma_record();
    }

    /// A living cell state around `value`, with no reference out.
    pub fn new(value: T) -> (state: CellState<T>)
        ensures
            state.wf(),
            state.value() == value,
            state.borrows() == crate::borrow_state::fresh(),
    {
        CellState { value, borrows: BorrowState::new() }
    }

    /// Asks for `access`, and takes note of it if it is granted. The
    /// value stays as it is.
    pub fn request(&mut self, access: Access) -> (granted: Result<(), CellError>)
        requires
            old(self).wf(),
        ensures
            final(self).wf(),
            granted == old(self).borrows().verdict(access, shared_limit()),
            final(self).borrows() == old(self).borrows().after(access, shared_limit()),
            final(self).value() == old(self).value(),
    {
        self.borrows.request(access)
    }

    /// Puts `value` in place of the value kept and hands the old one out,
    /// if a write is granted; else hands `value` back with the reason.
    pub fn replace(&mut self, value: T) -> (replaced: Result<T, (T, CellError)>)
        requires
            old(self).wf(),
        ensures
            final(self).wf(),
            final(self).borrows() == old(self).borrows(),
            match old(self).borrows().verdict(Access::Write, shared_limit()) {
                Ok(_) => {
                    &&& replaced == Ok::<T, (T, CellError)>(old(self).value())
                    &&& final(self).value() == value
                },
                Err(why) => {
                    &&& replaced == Err::<T, (T, CellError)>((value, why))
                    &&& final(self).value() == old(self).value()
                },
            },
    {
        match self.borrows.request(Access::Write) {
            Ok(_) => {
                let mut value = value;
                std::mem::swap(&mut self.value, &mut value);
                Ok(value)
            },
            Err(why) => Err((value, why)),
        }
    }
}

impl<T: Copy> CellState<T> {
    /// A copy of the value, if a read is granted.
    pub fn read(&self) -> (read: Result<T, CellError>)
        requires
            self.wf(),
        ensures
            match self.borrows().verdict(Access::Read, shared_limit()) {
                Ok(_) => read == Ok::<T, CellError>(self.value()),
                Err(why) => read == Err::<T, CellError>(why),
            },
    {
        if self.borrows.is_alive() {
            Ok(self.value)
        } else {
            Err(CellError::DanglingAccess)
        }
    }
}

/// What the lock of a job cell keeps: a cell state whose borrow state is
/// what its history leaves, and so keeps the rule.
pub struct Checked;

impl<T> RwLockPredicate<CellState<T>> for Checked {
    open spec fn inv(self, state: CellState<T>) -> bool {
        state.wf()
    }
}

/// The owner of a shared value.
pub struct JobCell<T> {
    state: Arc<RwLock<CellState<T>, Checked>>,
}

/// One shared borrow of a cell. The copies of a shared reference hold it
/// together, and it is given back when the last of them is.
pub struct Lease;

/// A shared reference into a job cell.
pub struct Ref<T> {
    state: Arc<RwLock<CellState<T>, Checked>>,
    lease: Arc<Lease>,
}

/// The exclusive reference into a job cell.
pub struct MutRef<T> {
    state: Arc<RwLock<CellState<T>, Checked>>,
}

/// `std::sync::Arc::into_inner`: the lease, if `lease` was the last handle
/// on it, and nothing otherwise. Which of the two it is depends on what the
/// other holders have done by then, so nothing is claimed of the result.
#[verifier::external_body]
fn last_holder(lease: Arc<Lease>) -> (last: Option<Lease>) {
    Arc::into_inner(lease)
}

/// Asks the cell state behind `state` for `access`, as `CellState::request`
/// does on the state that is there at that moment. Whatever that state is,
/// a request for a reference is refused only as an aliasing violation, a
/// read or a write only as dangling, and giving back and destroying are
/// granted.
fn request_shared<T>(state: &Arc<RwLock<CellState<T>, Checked>>, access: Access) -> (granted:
    Result<(), CellError>)
    ensures
        match access {
            Access::Borrow | Access::BorrowMut => granted is Err ==> granted == Err::<
                (),
                CellError,
            >(CellError::AliasingViolation),
            Access::Read | Access::Write => granted is Err ==> granted == Err::<(), CellError>(
                CellError::DanglingAccess,
            ),
            Access::Release | Access::ReleaseMut | Access::Destroy => granted is Ok,
        },
{
    let (mut cell, guard) = state.acquire_write();
    let granted = cell.request(access);
    guard.release_write(cell);
    granted
}

impl<T> JobCell<T> {
    /// Whether `reference` leads into this cell.
    pub closed spec fn lends(&self, reference: &Ref<T>) -> bool {
        reference.state == self.state
    }

    /// Whether `reference` leads into this cell.
    pub closed spec fn lends_mut(&self, reference: &MutRef<T>) -> bool {
        reference.state == self.state
    }

    /// A cell that owns `value`.
    pub fn new(value: T) -> (cell: JobCell<T>) {
        let state = CellState::new(value);
        JobCell { state: Arc::new(RwLock::<CellState<T>, Checked>::new(state, Ghost(Checked))) }
    }

    /// A shared reference, unless the exclusive one is out at that moment
    /// or no further shared one can be counted. Nothing else refuses it.
    pub fn borrow(&self) -> (borrowed: Result<Ref<T>, CellError>)
        ensures
            match borrowed {
                Ok(reference) => self.lends(&reference),
                Err(why) => why == CellError::AliasingViolation,
            },
    {
        match request_shared(&self.state, Access::Borrow) {
            Ok(_) => Ok(Ref { state: self.state.clone(), lease: Arc::new(Lease) }),
            Err(why) => Err(why),
        }
    }

    /// The exclusive reference, unless any reference is out at that
    /// moment. Nothing else refuses it.
    pub fn as_mut(&mut self) -> (borrowed: Result<MutRef<T>, CellError>)
        ensures
            match borrowed {
                Ok(reference) => final(self).lends_mut(&reference),
                Err(why) => why == CellError::AliasingViolation,
            },
            *final(self) == *old(self),
    {
        match request_shared(&self.state, Access::BorrowMut) {
            Ok(_) => Ok(MutRef { state: self.state.clone() }),
            Err(why) => Err(why),
        }
    }

    /// Destroys the cell. Every reference into it is invalid from now on.
    pub fn destroy(self) {
        let _ = request_shared(&self.state, Access::Destroy);
    }
}

impl<T> Ref<T> {
    /// Whether two references lead into the same cell.
    pub closed spec fn same_cell(&self, other: &Ref<T>) -> bool {
        self.state == other.state
    }

    /// A copy of the reference: it leads into the same cell and holds the
    /// same borrow, so the cell is not asked. The copy of a dangling
    /// reference dangles too.
    pub fn duplicate(&self) -> (copy: Ref<T>)
        ensures
            copy.same_cell(self),
    {
        Ref { state: self.state.clone(), lease: self.lease.clone() }
    }

    /// Gives the reference back. The borrow that it held goes back to the
    /// cell with the last of its copies.
    pub fn release(self) {
        let Ref { state, lease } = self;
        match last_holder(lease) {
            Some(_) => {
                let _ = request_shared(&state, Access::Release);
            },
            None => {},
        }
    }
}

impl<T: Copy> Ref<T> {
    /// A copy of the value, unless the cell is destroyed.
    pub fn get(&self) -> (read: Result<T, CellError>)
        ensures
            read matches Err(why) ==> why == CellError::DanglingAccess,
    {
        let guard = self.state.acquire_read();
        let read = guard.borrow().read();
        guard.release_read();
        read
    }
}

impl<T> MutRef<T> {
    /// Puts `value` into the cell and hands out what was there, unless the
    /// cell is destroyed: then `value` comes back, with the one reason there
    /// is.
    pub fn replace(&self, value: T) -> (replaced: Result<T, (T, CellError)>)
        ensures
            replaced matches Err(back) ==> back == (value, CellError::DanglingAccess),
    {
        let (mut cell, guard) = self.state.acquire_write();
        let replaced = cell.replace(value);
        guard.release_write(cell);
        replaced
    }

    /// Gives the reference back.
    pub fn release(self) {
        let _ = request_shared(&self.state, Access::ReleaseMut);
    }
}

impl<T: Copy> MutRef<T> {
    /// A copy of the value, unless the cell is destroyed.
    pub fn get(&self) -> (read: Result<T, CellError>)
        ensures
            read matches Err(why) ==> why == CellError::DanglingAccess,
    {
        let guard = self.state.acquire_read();
        let read = guard.borrow().read();
        guard.release_read();
        read
    }

    /// Writes `value` into the cell, unless the cell is destroyed. Nothing
    /// else refuses the write.
    pub fn set(&self, value: T) -> (written: Result<(), CellError>)
        ensures
            written matches Err(why) ==> why == CellError::DanglingAccess,
    {
        match self.replace(value) {
            Ok(_) => Ok(()),
            Err(back) => Err(back.1),
        }
    }
}

} // verus!
