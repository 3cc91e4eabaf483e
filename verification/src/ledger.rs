//! The vote ledger: every ballot that was ever opened, each under a handle
//! of its own, and what the open ones add up to.

use vstd::prelude::*;
use crate::accountant::ballot_for;
use crate::address::Address;
use crate::ballot::Ballot;
use crate::error::ErrorCode;

verus! {

/// Names one ballot of a ledger. Handles are given out in order and never
/// again: the handle of a closed ballot stays empty.
#[derive(Clone, Copy, Debug, PartialEq, Eq, Structural)]
pub struct BallotHandle {
    pub index: usize,
}

/// The weight that a slot of the ledger locks: that of its ballot, or
/// nothing when the ballot is closed.
pub open spec fn weight(slot: Option<Ballot>) -> nat {
    match slot {
        Some(ballot) => ballot.num_votes as nat,
        None => 0,
    }
}

/// The weight that a slot lends to generation `generation`: that of its
/// ballot if the ballot is open and was cast for that generation.
pub open spec fn weight_in(slot: Option<Ballot>, generation: u64) -> nat {
    match slot {
        Some(ballot) => if ballot.proposal_id == generation {
            ballot.num_votes as nat
        } else {
            0
        },
        None => 0,
    }
}

/// The sum of the weights of all open ballots, whatever their generation.
pub open spec fn locked(slots: Seq<Option<Ballot>>) -> nat
    decreases slots.len(),
{
    if slots.len() == 0 {
        0
    } else {
        locked(slots.drop_last()) + weight(slots.last())
    }
}

/// The sum of the weights of the open ballots of generation `generation`.
pub open spec fn backing(slots: Seq<Option<Ballot>>, generation: u64) -> nat
    decreases slots.len(),
{
    if slots.len() == 0 {
        0
    } else {
        backing(slots.drop_last(), generation) + weight_in(slots.last(), generation)
    }
}

/// Whether no open ballot belongs to a generation later than `generation`.
pub open spec fn none_after(slots: Seq<Option<Ballot>>, generation: u64) -> bool {
    forall|i: int|
        0 <= i < slots.len() ==> (#[trigger] slots[i] matches Some(ballot)
            ==> ballot.proposal_id <= generation)
}

/// The ballot under the handle with index `index`, if it is open.
pub open spec fn lookup(slots: Seq<Option<Ballot>>, index: int) -> Option<Ballot> {
    if 0 <= index < slots.len() {
        slots[index]
    } else {
        None
    }
}

/// A new slot adds its weight to the total.
pub proof fn lemma_locked_push(slots: Seq<Option<Ballot>>, slot: Option<Ballot>)
    ensures
        locked(slots.push(slot)) == locked(slots) + weight(slot),
{
    assert(slots.push(slot).drop_last() =~= slots);
}

/// A new slot adds to a generation's backing what it lends to it.
pub proof fn lemma_backing_push(slots: Seq<Option<Ballot>>, slot: Option<Ballot>, generation: u64)
    ensures
        backing(slots.push(slot), generation) == backing(slots, generation) + weight_in(
            slot,
            generation,
        ),
{
    assert(slots.push(slot).drop_last() =~= slots);
}

/// Emptying a slot takes its weight out of the total, and no more.
pub proof fn lemma_locked_close(slots: Seq<Option<Ballot>>, index: int)
    requires
        0 <= index < slots.len(),
    ensures
        locked(slots.update(index, None)) + weight(slots[index]) == locked(slots),
    decreases slots.len(),
{
    let after = slots.update(index, None);
    if index == slots.len() - 1 {
        assert(after.drop_last() =~= slots.drop_last());
    } else {
        lemma_locked_close(slots.drop_last(), index);
        assert(after.drop_last() =~= slots.drop_last().update(index, None));
    }
}

/// Emptying a slot takes out of a generation's backing what the slot lent
/// to it, and no more.
pub proof fn lemma_backing_close(slots: Seq<Option<Ballot>>, index: int, generation: u64)
    requires
        0 <= index < slots.len(),
    ensures
        backing(slots.update(index, None), generation) + weight_in(slots[index], generation)
            == backing(slots, generation),
    decreases slots.len(),
{
    let after = slots.update(index, None);
    if index == slots.len() - 1 {
        assert(after.drop_last() =~= slots.drop_last());
    } else {
        lemma_backing_close(slots.drop_last(), index, generation);
        assert(after.drop_last() =~= slots.drop_last().update(index, None));
    }
}

/// A generation that no open ballot has reached yet has no backing.
pub proof fn lemma_backing_of_later_generation(
    slots: Seq<Option<Ballot>>,
    reached: u64,
    generation: u64,
)
    requires
        none_after(slots, reached),
        reached < generation,
    ensures
        backing(slots, generation) == 0,
    decreases slots.len(),
{
    if slots.len() > 0 {
        assert(slots.last() == slots[slots.len() - 1]);
        assert forall|i: int| 0 <= i < slots.drop_last().len() implies (
        #[trigger] slots.drop_last()[i] matches Some(ballot) ==> ballot.proposal_id <= reached) by {
            assert(slots.drop_last()[i] == slots[i]);
        }
        lemma_backing_of_later_generation(slots.drop_last(), reached, generation);
    }
}

/// No single slot locks more than all of them together.
pub proof fn lemma_locked_bounds_slot(slots: Seq<Option<Ballot>>, index: int)
    requires
        0 <= index < slots.len(),
    ensures
        weight(slots[index]) <= locked(slots),
{
    lemma_locked_close(slots, index);
}

/// All slots together lock no more than each of them could at most.
pub proof fn lemma_locked_is_bounded(slots: Seq<Option<Ballot>>)
    ensures
        locked(slots) <= slots.len() * u64::MAX,
    decreases slots.len(),
{
    if slots.len() > 0 {
        lemma_locked_is_bounded(slots.drop_last());
    }
}

/// The ledger. A slot holds a ballot while it is open and nothing after.
pub struct VoteLedger {
    slots: Vec<Option<Ballot>>,
}

impl View for VoteLedger {
    type V = Seq<Option<Ballot>>;

    /// The slots in the order their handles were given out.
    closed spec fn view(&self) -> Seq<Option<Ballot>> {
        self.slots@
    }
}

impl VoteLedger {
    /// A ledger without ballots.
    pub fn new() -> (ledger: VoteLedger)
        ensures
            ledger@ == Seq::<Option<Ballot>>::empty(),
    {
        VoteLedger { slots: Vec::new() }
    }

    /// A ledger has no more slots than a machine can count.
    pub proof fn lemma_len_fits(&self)
        ensures
            self@.len() <= usize::MAX,
    {
        assert(self.slots.len() == self.slots@.len());
    }

    /// The number of handles given out so far.
    pub fn len(&self) -> (n: usize)
        ensures
            n == self@.len(),
    {
        self.slots.len()
    }

    /// The ballot under `handle`, if it is open.
    pub fn get(&self, handle: BallotHandle) -> (slot: Option<Ballot>)
        ensures
            slot == lookup(self@, handle.index as int),
    {
        if handle.index < self.slots.len() {
            self.slots[handle.index]
        } else {
            None
        }
    }

    /// Opens a ballot of `voter` with weight `weight` for generation
    /// `proposal_id`, under a handle that was never used before.
    pub fn open(&mut self, voter: Address, proposal_id: u64, weight: u64) -> (handle: BallotHandle)
        ensures
            handle.index == old(self)@.len(),
            final(self)@ == old(self)@.push(Some(ballot_for(voter, proposal_id, weight))),
    {
        let index = self.slots.len();
        self.slots.push(Some(Ballot { proposal_id, num_votes: weight, voter_address: voter }));
        BallotHandle { index }
    }

    /// Closes the ballot under `handle` for its owner `caller` and hands it
    /// back. Fails with `NotFound` when no ballot is open under the handle,
    /// and with `Unauthorized` when `caller` does not own it; the ledger
    /// then stays as it was.
    pub fn close(
        &mut self,
        handle: BallotHandle,
        caller: &Address,
    ) -> (r: Result<Ballot, ErrorCode>)
        ensures
            match r {
                Ok(ballot) => lookup(old(self)@, handle.index as int) == Some(ballot)
                    && ballot.voter_address == *caller && final(self)@ == old(self)@.update(
                    handle.index as int,
                    None,
                ),
                Err(e) => final(self)@ == old(self)@ && match lookup(
                    old(self)@,
                    handle.index as int,
                ) {
                    None => e == ErrorCode::NotFound,
                    Some(ballot) => e == ErrorCode::Unauthorized && ballot.voter_address
                        != *caller,
                },
            },
    {
        match self.get(handle) {
            None => Err(ErrorCode::NotFound),
            Some(ballot) => {
                if ballot.voter_address != *caller {
                    Err(ErrorCode::Unauthorized)
                } else {
                    self.slots[handle.index] = None;
                    Ok(ballot)
                }
            },
        }
    }
}

} // verus!
