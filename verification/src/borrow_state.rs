//! The borrow state of a job cell: whether its owner lives, how many shared
//! references are out, and whether the exclusive one is.
//!
//! The rule is the usual one, exclusive or shared, but kept at run time. A
//! request for a reference that would break it is refused as an aliasing
//! violation, and nothing else refuses such a request. A reference, once out,
//! reads and writes while the owner lives; once the owner is gone, every read
//! and write is refused as dangling, and nothing else refuses them.
//!
//! `Borrows` is the state as numbers, with what each request does to it and
//! what holds of every sequence of requests. `BorrowState` is what a cell
//! keeps at run time.

use vstd::prelude::*;

verus! {

/// Why a job cell refused.
#[derive(Clone, Copy, Debug, PartialEq, Eq, Structural)]
pub enum CellError {
    /// The reference asked for may not exist beside those that are out.
    AliasingViolation,
    /// The owning cell is destroyed.
    DanglingAccess,
}

/// What can be asked of a borrow state.
#[derive(Clone, Copy, Debug, PartialEq, Eq, Structural)]
pub enum Access {
    /// Take out a shared reference.
    Borrow,
    /// Take out the exclusive reference.
    BorrowMut,
    /// Give a shared reference back.
    Release,
    /// Give the exclusive reference back.
    ReleaseMut,
    /// Read through a reference that is out.
    Read,
    /// Write through the exclusive reference, which is out.
    Write,
    /// Destroy the owner.
    Destroy,
}

/// A borrow state as numbers.
pub struct Borrows {
    /// Whether the owning cell exists.
    pub alive: bool,
    /// The number of shared references that are out.
    pub shared: nat,
    /// Whether the exclusive reference is out.
    pub exclusive: bool,
}

impl Borrows {
    /// The exclusive reference is never out together with a shared one.
    pub open spec fn exclusive_or_shared(self) -> bool {
        !(self.exclusive && self.shared > 0)
    }

    /// Whether `access` is granted, and if not, why. `limit` is the
    /// largest number of shared references that can be counted.
    pub open spec fn verdict(self, access: Access, limit: nat) -> Result<(), CellError> {
        match access {
            Access::Borrow => if self.exclusive || self.shared >= limit {
                Err(CellError::AliasingViolation)
            } else {
                Ok(())
            },
            Access::BorrowMut => if self.exclusive || self.shared > 0 {
                Err(CellError::AliasingViolation)
            } else {
                Ok(())
            },
            Access::Read => if !self.alive {
                Err(CellError::DanglingAccess)
            } else {
                Ok(())
            },
            Access::Write => if !self.alive {
                Err(CellError::DanglingAccess)
            } else {
                Ok(())
            },
            Access::Release => Ok(()),
            Access::ReleaseMut => Ok(()),
            Access::Destroy => Ok(()),
        }
    }

    /// The state after `access`. A refused access changes nothing.
    pub open spec fn after(self, access: Access, limit: nat) -> Borrows {
        if self.verdict(access, limit) is Err {
            self
        } else {
            match access {
                Access::Borrow => Borrows { shared: self.shared + 1, ..self },
                Access::BorrowMut => Borrows { exclusive: true, ..self },
                Access::Release => Borrows {
                    shared: if self.shared > 0 {
                        (self.shared - 1) as nat
                    } else {
                        0
                    },
                    ..self
                },
                Access::ReleaseMut => Borrows { exclusive: false, ..self },
                Access::Read => self,
                Access::Write => self,
                Access::Destroy => Borrows { alive: false, ..self },
            }
        }
    }

    /// The state after `access` was asked `times` times in a row.
    pub open spec fn after_repeated(self, access: Access, times: nat, limit: nat) -> Borrows
        decreases times,
    {
        if times == 0 {
            self
        } else {
            self.after_repeated(access, (times - 1) as nat, limit).after(access, limit)
        }
    }
}

/// The state of a cell that was just made.
pub open spec fn fresh() -> Borrows {
    Borrows { alive: true, shared: 0, exclusive: false }
}

/// The state of a cell of which `accesses` were asked, in order, since it
/// was made.
pub open spec fn life(accesses: Seq<Access>, limit: nat) -> Borrows
    decreases accesses.len(),
{
    if accesses.len() == 0 {
        fresh()
    } else {
        life(accesses.drop_last(), limit).after(accesses.last(), limit)
    }
}

/// The rule, always. Whatever was asked of a cell since it was made, and
/// in whatever order, the exclusive reference is not out together with a
/// shared one, and no more shared ones are out than can be counted.
pub proof fn lemma_rule_kept_for_life(accesses: Seq<Access>, limit: nat)
    ensures
        life(accesses, limit).exclusive_or_shared(),
        life(accesses, limit).shared <= limit,
    decreases accesses.len(),
{
    if accesses.len() > 0 {
        lemma_rule_kept_for_life(accesses.drop_last(), limit);
    }
}

/// Destroyed is for good. Once the owner was destroyed, whatever is asked
/// afterwards, every read and every write is refused as dangling.
pub proof fn lemma_dangling_for_life(before: Seq<Access>, after: Seq<Access>, limit: nat)
    ensures
        ({
            let gone = life(before.push(Access::Destroy) + after, limit);
            &&& !gone.alive
            &&& gone.verdict(Access::Read, limit) == Err::<(), CellError>(CellError::DanglingAccess)
            &&& gone.verdict(Access::Write, limit) == Err::<(), CellError>(
                CellError::DanglingAccess,
            )
        }),
    decreases after.len(),
{
    let destroyed = before.push(Access::Destroy);
    if after.len() == 0 {
        assert(destroyed + after =~= destroyed);
        assert(destroyed.drop_last() =~= before);
    } else {
        lemma_dangling_for_life(before, after.drop_last(), limit);
        assert((destroyed + after).drop_last() =~= destroyed + after.drop_last());
    }
}

/// Whatever is asked, the exclusive reference never comes to exist beside
/// a shared one, and a destroyed owner stays destroyed.
pub proof fn lemma_rule_kept(borrows: Borrows, access: Access, limit: nat)
    requires
        borrows.exclusive_or_shared(),
    ensures
        borrows.after(access, limit).exclusive_or_shared(),
        !borrows.alive ==> !borrows.after(access, limit).alive,
{
}

/// While a shared reference is out, the exclusive one is refused.
pub proof fn lemma_exclusive_refused_while_shared(borrows: Borrows, limit: nat)
    requires
        borrows.shared > 0,
    ensures
        borrows.verdict(Access::BorrowMut, limit) == Err::<(), CellError>(
            CellError::AliasingViolation,
        ),
        borrows.after(Access::BorrowMut, limit) == borrows,
{
}

/// While the exclusive reference is out, no other reference is granted.
pub proof fn lemma_all_refused_while_exclusive(borrows: Borrows, limit: nat)
    requires
        borrows.exclusive,
    ensures
        borrows.verdict(Access::Borrow, limit) == Err::<(), CellError>(
            CellError::AliasingViolation,
        ),
        borrows.verdict(Access::BorrowMut, limit) == Err::<(), CellError>(
            CellError::AliasingViolation,
        ),
{
}

/// `times` shared references taken from a state that grants them leave
/// `times` more out.
pub proof fn lemma_borrows_add_up(borrows: Borrows, times: nat, limit: nat)
    requires
        !borrows.exclusive,
        borrows.shared + times <= limit,
    ensures
        borrows.after_repeated(Access::Borrow, times, limit) == (Borrows {
            shared: borrows.shared + times,
            ..borrows
        }),
    decreases times,
{
    if times > 0 {
        lemma_borrows_add_up(borrows, (times - 1) as nat, limit);
    }
}

/// `times` shared references given back leave `times` fewer out.
pub proof fn lemma_releases_add_up(borrows: Borrows, times: nat, limit: nat)
    requires
        times <= borrows.shared,
    ensures
        borrows.after_repeated(Access::Release, times, limit) == (Borrows {
            shared: (borrows.shared - times) as nat,
            ..borrows
        }),
    decreases times,
{
    if times > 0 {
        lemma_releases_add_up(borrows, (times - 1) as nat, limit);
    }
}

/// Once every shared reference that was taken from a fresh cell is given
/// back, the exclusive reference is granted; while one is still out, it is
/// refused.
pub proof fn lemma_exclusive_after_all_released(taken: nat, given_back: nat, limit: nat)
    requires
        given_back <= taken <= limit,
    ensures
        ({
            let state = fresh().after_repeated(Access::Borrow, taken, limit).after_repeated(
                Access::Release,
                given_back,
                limit,
            );
            state.verdict(Access::BorrowMut, limit) == if given_back == taken {
                Ok::<(), CellError>(())
            } else {
                Err::<(), CellError>(CellError::AliasingViolation)
            }
        }),
{
    lemma_borrows_add_up(fresh(), taken, limit);
    lemma_releases_add_up(fresh().after_repeated(Access::Borrow, taken, limit), given_back, limit);
}

/// Once the owner is destroyed, every reference is invalid: reading and
/// writing are refused as dangling, whatever was out.
pub proof fn lemma_dangling_after_destroy(borrows: Borrows, limit: nat)
    ensures
        ({
            let gone = borrows.after(Access::Destroy, limit);
            &&& gone.verdict(Access::Read, limit) == Err::<(), CellError>(CellError::DanglingAccess)
            &&& gone.verdict(Access::Write, limit) == Err::<(), CellError>(
                CellError::DanglingAccess,
            )
        }),
{
}

/// Each request has one reason to be refused, if any: a request for a
/// reference is refused only as an aliasing violation, a read or a write
/// only as dangling, and giving back and destroying are never refused.
pub proof fn lemma_one_reason(borrows: Borrows, access: Access, limit: nat)
    ensures
        match access {
            Access::Borrow | Access::BorrowMut => borrows.verdict(access, limit) is Err
                ==> borrows.verdict(access, limit) == Err::<(), CellError>(
                CellError::AliasingViolation,
            ),
            Access::Read | Access::Write => borrows.verdict(access, limit) is Err
                <==> !borrows.alive,
            _ => borrows.verdict(access, limit) is Ok,
        },
        borrows.verdict(Access::Read, limit) is Err ==> borrows.verdict(Access::Read, limit)
            == Err::<(), CellError>(CellError::DanglingAccess),
        borrows.verdict(Access::Write, limit) is Err ==> borrows.verdict(Access::Write, limit)
            == Err::<(), CellError>(CellError::DanglingAccess),
{
}

/// The borrow state that a cell keeps at run time, together with the
/// record of what was asked of it since it was made. The record exists for
/// the proof only.
pub struct BorrowState {
    alive: bool,
    shared: usize,
    exclusive: bool,
    history: Ghost<Seq<Access>>,
}

impl View for BorrowState {
    type V = Borrows;

    closed spec fn view(&self) -> Borrows {
        Borrows { alive: self.alive, shared: self.shared as nat, exclusive: self.exclusive }
    }
}

/// The largest number of shared references that a borrow state counts.
pub open spec fn shared_limit() -> nat {
    usize::MAX as nat
}

impl BorrowState {
    /// The requests that were put to this state since it was made, in
    /// order.
    pub closed spec fn history(&self) -> Seq<Access> {
        self.history@
    }

    /// The record is true: the state is what its history leaves of a fresh
    /// one.
    pub closed spec fn wf(&self) -> bool {
        self@ == life(self.history@, shared_limit())
    }

    /// What a true record says, in the open, and the rule that follows
    /// from it.
    pub proof fn lemma_record(&self)
        requires
            self.wf(),
        ensures
            self@ == life(self.history(), shared_limit()),
            self@.exclusive_or_shared(),
            self@.shared <= shared_limit(),
    {
        lemma_rule_kept_for_life(self.history(), shared_limit());
    }

    /// The state of a cell that was just made: alive, nothing out.
    pub fn new() -> (state: BorrowState)
        ensures
            state@ == fresh(),
            state.history() == Seq::<Access>::empty(),
            state.wf(),
    {
        BorrowState { alive: true, shared: 0, exclusive: false, history: Ghost(Seq::empty()) }
    }

    /// Asks for `access`, and takes note of it if it is granted.
    pub fn request(&mut self, access: Access) -> (granted: Result<(), CellError>)
        requires
            old(self).wf(),
        ensures
            granted == old(self)@.verdict(access, shared_limit()),
            final(self)@ == old(self)@.after(access, shared_limit()),
            final(self).history() == old(self).history().push(access),
            final(self).wf(),
    {
        proof {
            self.lemma_record();
            assert(self.history@.push(access).drop_last() =~= self.history@);
        }
        self.history = Ghost(self.history@.push(access));
        match access {
            Access::Borrow => {
                if self.exclusive || self.shared == usize::MAX {
                    return Err(CellError::AliasingViolation);
                }
                self.shared = self.shared + 1;
            },
            Access::BorrowMut => {
                if self.exclusive || self.shared > 0 {
                    return Err(CellError::AliasingViolation);
                }
                self.exclusive = true;
            },
            Access::Release => {
                if self.shared > 0 {
                    self.shared = self.shared - 1;
                }
            },
            Access::ReleaseMut => {
                self.exclusive = false;
            },
            Access::Read => {
                if !self.alive {
                    return Err(CellError::DanglingAccess);
                }
            },
            Access::Write => {
                if !self.alive {
                    return Err(CellError::DanglingAccess);
                }
            },
            Access::Destroy => {
                self.alive = false;
            },
        }
        Ok(())
    }

    /// Whether the owning cell exists.
    pub fn is_alive(&self) -> (alive: bool)
        ensures
            alive == self@.alive,
    {
        self.alive
    }

    /// The number of shared references that are out.
    pub fn shared(&self) -> (shared: usize)
        ensures
            shared == self@.shared,
    {
        self.shared
    }

    /// Whether the exclusive reference is out.
    pub fn is_exclusive(&self) -> (exclusive: bool)
        ensures
            exclusive == self@.exclusive,
    {
        self.exclusive
    }
}

} // verus!
