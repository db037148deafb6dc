//! The locker-state machine: allocation of free lockers, capacity-bounded
//! item mutation, and the free / contents-being-changed / closed lifecycle
//! enforced through ownership transfer of the locker's contents.

use vstd::prelude::*;

use crate::items::CloakroomItems;

verus! {

/// Lockers are identified by a positive integer, unique within a cloakroom.
pub type LockerNumber = usize;

/// The recorded state of one locker slot inside a cloakroom: free, checked
/// out by a customer (the contents travel with the customer's `Locker`
/// value), or closed with the contents stored until the key is redeemed.
#[derive(Clone, Copy)]
pub enum SlotState {
    Free,
    ContentsBeingChanged,
    Closed(CloakroomItems),
}

/// A slot never stores more items than the configured per-locker capacity.
pub open spec fn slot_ok(s: SlotState, max_items: u16) -> bool {
    s matches SlotState::Closed(b) ==> b.spec_total() <= max_items
}

/// A locker checked out by a customer: a locker number, the capacity bound
/// inherited from the cloakroom, and the owned items. Every mutation is
/// checked against the capacity bound before it is applied.
pub struct Locker {
    number: LockerNumber,
    max_items: u16,
    items: CloakroomItems,
}

impl Locker {
    /// The locker's number.
    pub closed spec fn spec_number(self) -> LockerNumber {
        self.number
    }

    /// The locker's capacity bound.
    pub closed spec fn spec_max_items(self) -> u16 {
        self.max_items
    }

    /// The items currently held in the locker.
    pub closed spec fn spec_items(self) -> CloakroomItems {
        self.items
    }

    /// The capacity invariant: the total item count never exceeds the bound.
    pub open spec fn wf(self) -> bool {
        self.spec_items().spec_total() <= self.spec_max_items()
    }

    pub fn get_locker_number(&self) -> (r: LockerNumber)
        ensures
            r == self.spec_number(),
    {
        self.number
    }

    pub fn get_total_num_items(&self) -> (r: u16)
        ensures
            r == self.spec_items().spec_total(),
    {
        self.items.get_total_num_items()
    }

    pub fn get_max_items(&self) -> (r: u16)
        ensures
            r == self.spec_max_items(),
    {
        self.max_items
    }

    pub fn get_items(&self) -> (r: &CloakroomItems)
        ensures
            *r == self.spec_items(),
    {
        &self.items
    }

    /// Replaces the coat count, unless that would push the total over the
    /// capacity bound; a rejected change leaves the locker untouched.
    pub fn set_num_coats(&mut self, num_items: u8) -> (r: Result<(), ()>)
        requires
            old(self).wf(),
        ensures
            final(self).wf(),
            final(self).spec_number() == old(self).spec_number(),
            final(self).spec_max_items() == old(self).spec_max_items(),
            r is Ok <==> old(self).spec_items().spec_total() - old(self).spec_items().num_coats
                + num_items <= old(self).spec_max_items(),
            r is Ok ==> final(self).spec_items() == (CloakroomItems {
                num_coats: num_items,
                ..old(self).spec_items()
            }),
            r is Err ==> *final(self) == *old(self),
    {
        self.items.num_coats = self.check_change_items(self.items.num_coats, num_items)?;
        Ok(())
    }

    /// Replaces the backpack count, under the same capacity rule.
    pub fn set_num_backpacks(&mut self, num_items: u8) -> (r: Result<(), ()>)
        requires
            old(self).wf(),
        ensures
            final(self).wf(),
            final(self).spec_number() == old(self).spec_number(),
            final(self).spec_max_items() == old(self).spec_max_items(),
            r is Ok <==> old(self).spec_items().spec_total() - old(self).spec_items().num_backpacks
                + num_items <= old(self).spec_max_items(),
            r is Ok ==> final(self).spec_items() == (CloakroomItems {
                num_backpacks: num_items,
                ..old(self).spec_items()
            }),
            r is Err ==> *final(self) == *old(self),
    {
        self.items.num_backpacks = self.check_change_items(self.items.num_backpacks, num_items)?;
        Ok(())
    }

    /// Replaces the umbrella count, under the same capacity rule.
    pub fn set_num_umbrellas(&mut self, num_items: u8) -> (r: Result<(), ()>)
        requires
            old(self).wf(),
        ensures
            final(self).wf(),
            final(self).spec_number() == old(self).spec_number(),
            final(self).spec_max_items() == old(self).spec_max_items(),
            r is Ok <==> old(self).spec_items().spec_total() - old(self).spec_items().num_umbrellas
                + num_items <= old(self).spec_max_items(),
            r is Ok ==> final(self).spec_items() == (CloakroomItems {
                num_umbrellas: num_items,
                ..old(self).spec_items()
            }),
            r is Err ==> *final(self) == *old(self),
    {
        self.items.num_umbrellas = self.check_change_items(self.items.num_umbrellas, num_items)?;
        Ok(())
    }

    /// Replaces the count of other items, under the same capacity rule.
    pub fn set_num_other_items(&mut self, num_items: u8) -> (r: Result<(), ()>)
        requires
            old(self).wf(),
        ensures
            final(self).wf(),
            final(self).spec_number() == old(self).spec_number(),
            final(self).spec_max_items() == old(self).spec_max_items(),
            r is Ok <==> old(self).spec_items().spec_total()
                - old(self).spec_items().num_other_items + num_items <= old(
                self,
            ).spec_max_items(),
            r is Ok ==> final(self).spec_items() == (CloakroomItems {
                num_other_items: num_items,
                ..old(self).spec_items()
            }),
            r is Err ==> *final(self) == *old(self),
    {
        self.items.num_other_items = self.check_change_items(
            self.items.num_other_items,
            num_items,
        )?;
        Ok(())
    }

    /// Decides whether one category may change from `curr_num_items` to
    /// `new_num_items` without the total exceeding the capacity bound.
    fn check_change_items(&self, curr_num_items: u8, new_num_items: u8) -> (r: Result<u8, ()>)
        requires
            curr_num_items <= self.spec_items().spec_total(),
        ensures
            r is Ok <==> self.spec_items().spec_total() - curr_num_items + new_num_items
                <= self.spec_max_items(),
            r matches Ok(v) ==> v == new_num_items,
    {
        if self.items.get_total_num_items() - curr_num_items as u16 + new_num_items as u16
            > self.max_items {
            Err(())
        } else {
            Ok(new_num_items)
        }
    }
}

/// A key, issued when a locker is closed and consumed to reopen it. It
/// carries only the locker number; the contents stay inside the cloakroom
/// until the key is redeemed. Only the cloakroom can construct one.
pub struct Key {
    locker_number: LockerNumber,
}

impl Key {
    /// The number of the locker this key unlocks.
    pub closed spec fn spec_locker_number(self) -> LockerNumber {
        self.locker_number
    }

    fn new(locker_number: LockerNumber) -> (k: Key)
        ensures
            k.spec_locker_number() == locker_number,
    {
        Key { locker_number }
    }

    pub fn get_locker_number(&self) -> (r: LockerNumber)
        ensures
            r == self.spec_locker_number(),
    {
        self.locker_number
    }
}

/// The outcome of asking for a free locker. Finding none is a normal,
/// expected outcome, not an error.
pub enum FreeLockerResult {
    FreeLockerFound(Locker),
    NoFreeLockers,
}

/// The observable state of a locker slot, as reported by a read-only query.
/// A number outside the cloakroom's range is `NonExistent`.
pub enum LockerState {
    Free,
    Closed(CloakroomItems),
    ContentsBeingChanged,
    NonExistent,
}

/// The failure cases of redeeming a key. A key issued by `close_locker` and
/// presented to the same cloakroom always finds a closed slot, so either
/// variant indicates an internal-consistency defect rather than a
/// recoverable user error.
pub enum OpenLockerError {
    /// No record exists for the key's locker number: the slot is free or the
    /// number lies outside the cloakroom's range.
    NoRecord(LockerNumber),
    /// A record exists but holds no stored contents: the slot is marked as
    /// having its contents changed.
    NoStoredContents(LockerNumber),
}

/// Some slot in the sequence is free.
pub open spec fn has_free_slot(slots: Seq<SlotState>) -> bool {
    exists|i: int| 0 <= i < slots.len() && slots[i] is Free
}

/// The number of free slots in the sequence.
pub open spec fn free_count(slots: Seq<SlotState>) -> nat
    decreases slots.len(),
{
    if slots.len() == 0 {
        0
    } else {
        free_count(slots.drop_last()) + if slots.last() is Free {
            1nat
        } else {
            0nat
        }
    }
}

/// The slot table after locker `number` is closed over bundle `b`.
pub open spec fn spec_close_slots(
    slots: Seq<SlotState>,
    number: LockerNumber,
    b: CloakroomItems,
) -> Seq<SlotState> {
    slots.update(number - 1, SlotState::Closed(b))
}

/// The bundle stored under locker `number`, if that slot is closed.
pub open spec fn spec_stored_items(slots: Seq<SlotState>, number: LockerNumber) -> Option<
    CloakroomItems,
> {
    if 1 <= number <= slots.len() {
        match slots[number - 1] {
            SlotState::Closed(b) => Some(b),
            _ => None,
        }
    } else {
        None
    }
}

/// A cloakroom: a fixed bank of numbered lockers, each bounded by the same
/// per-locker capacity. The table records, per slot, whether the locker is
/// free, checked out, or closed with its contents stored. Slot `number`
/// lives at index `number - 1`; numbers run over `[1, num_lockers]`.
pub struct Cloakroom {
    num_lockers: usize,
    max_items_per_locker: u16,
    slots: Vec<SlotState>,
}

impl View for Cloakroom {
    type V = Seq<SlotState>;

    closed spec fn view(&self) -> Seq<SlotState> {
        self.slots@
    }
}

impl Cloakroom {
    /// The number of locker slots, fixed at construction.
    pub closed spec fn spec_num_lockers(self) -> usize {
        self.num_lockers
    }

    /// The per-locker capacity, fixed at construction.
    pub closed spec fn spec_max_items_per_locker(self) -> u16 {
        self.max_items_per_locker
    }

    /// The cloakroom invariant: one slot per locker number, and no closed
    /// slot stores more items than the per-locker capacity.
    pub open spec fn wf(self) -> bool {
        &&& self@.len() == self.spec_num_lockers()
        &&& forall|i: int|
            0 <= i < self@.len() ==> slot_ok(#[trigger] self@[i], self.spec_max_items_per_locker())
    }

    /// Creates a cloakroom of `num_lockers` free lockers, each of which may
    /// hold up to `max_items_per_locker` items.
    pub fn new(num_lockers: usize, max_items_per_locker: u16) -> (r: Cloakroom)
        ensures
            r.wf(),
            r.spec_num_lockers() == num_lockers,
            r.spec_max_items_per_locker() == max_items_per_locker,
            forall|i: int| 0 <= i < num_lockers ==> r@[i] is Free,
    {
        let mut slots: Vec<SlotState> = Vec::new();
        while slots.len() < num_lockers
            invariant
                slots@.len() <= num_lockers,
                forall|i: int| 0 <= i < slots@.len() ==> slots@[i] is Free,
            decreases num_lockers - slots@.len(),
        {
            slots.push(SlotState::Free);
        }
        Cloakroom { num_lockers, max_items_per_locker, slots }
    }

    pub fn get_num_lockers(&self) -> (r: usize)
        ensures
            r == self.spec_num_lockers(),
    {
        self.num_lockers
    }

    /// The index of the lowest-numbered free slot, if any slot is free.
    fn first_free_index(&self) -> (r: Option<usize>)
        ensures
            match r {
                Some(i) => {
                    &&& 0 <= i < self@.len()
                    &&& self@[i as int] is Free
                    &&& forall|j: int| 0 <= j < i ==> !(self@[j] is Free)
                },
                None => !has_free_slot(self@),
            },
    {
        let n = self.slots.len();
        let mut idx: usize = 0;
        while idx < n
            invariant
                n == self@.len(),
                idx <= n,
                forall|j: int| 0 <= j < idx ==> !(self@[j] is Free),
            decreases n - idx,
        {
            match self.slots[idx] {
                SlotState::Free => {
                    return Some(idx);
                },
                _ => {
                    idx = idx + 1;
                },
            }
        }
        None
    }

    /// Scans locker numbers in ascending order from 1 and claims the first
    /// free one: the slot is marked as having its contents changed and a
    /// fresh, empty locker is handed to the caller, who now exclusively owns
    /// it. If every slot is taken, reports that no locker is free and
    /// changes nothing.
    pub fn find_free_locker(&mut self) -> (r: FreeLockerResult)
        requires
            old(self).wf(),
        ensures
            final(self).wf(),
            final(self).spec_num_lockers() == old(self).spec_num_lockers(),
            final(self).spec_max_items_per_locker() == old(self).spec_max_items_per_locker(),
            match r {
                FreeLockerResult::FreeLockerFound(locker) => {
                    &&& has_free_slot(old(self)@)
                    &&& 1 <= locker.spec_number() <= old(self).spec_num_lockers()
                    &&& old(self)@[locker.spec_number() - 1] is Free
                    &&& forall|m: int|
                        0 <= m < locker.spec_number() - 1 ==> !(#[trigger] old(self)@[m] is Free)
                    &&& locker.spec_items().all_zero()
                    &&& locker.spec_max_items() == old(self).spec_max_items_per_locker()
                    &&& locker.wf()
                    &&& final(self)@ == old(self)@.update(
                        locker.spec_number() - 1,
                        SlotState::ContentsBeingChanged,
                    )
                },
                FreeLockerResult::NoFreeLockers => {
                    &&& !has_free_slot(old(self)@)
                    &&& *final(self) == *old(self)
                },
            },
    {
        match self.first_free_index() {
            Some(idx) => {
                self.slots[idx] = SlotState::ContentsBeingChanged;
                let locker = Locker {
                    number: idx + 1,
                    max_items: self.max_items_per_locker,
                    items: CloakroomItems::new(),
                };
                FreeLockerResult::FreeLockerFound(locker)
            },
            None => FreeLockerResult::NoFreeLockers,
        }
    }

    /// Consumes the caller's locker, stores its bundle under the locker's
    /// number with the slot closed, and issues the key for that number.
    pub fn close_locker(&mut self, locker: Locker) -> (k: Key)
        requires
            old(self).wf(),
            locker.wf(),
            locker.spec_max_items() == old(self).spec_max_items_per_locker(),
            1 <= locker.spec_number() <= old(self).spec_num_lockers(),
        ensures
            final(self).wf(),
            final(self).spec_num_lockers() == old(self).spec_num_lockers(),
            final(self).spec_max_items_per_locker() == old(self).spec_max_items_per_locker(),
            final(self)@ == spec_close_slots(old(self)@, locker.spec_number(), locker.spec_items()),
            k.spec_locker_number() == locker.spec_number(),
    {
        let locker_number = locker.get_locker_number();
        self.slots[locker_number - 1] = SlotState::Closed(locker.items);
        Key::new(locker_number)
    }

    /// Consumes a key. If the key's slot is closed, removes the stored
    /// bundle, marks the slot as having its contents changed, and hands the
    /// caller a locker holding the retrieved bundle. A key only ever
    /// references a closed slot, so any other state is reported as an
    /// internal-consistency failure; a record that unexpectedly holds no
    /// contents is dropped, which leaves that slot free.
    pub fn open_locker(&mut self, key: Key) -> (r: Result<Locker, OpenLockerError>)
        requires
            old(self).wf(),
        ensures
            final(self).wf(),
            final(self).spec_num_lockers() == old(self).spec_num_lockers(),
            final(self).spec_max_items_per_locker() == old(self).spec_max_items_per_locker(),
            match spec_stored_items(old(self)@, key.spec_locker_number()) {
                Some(b) => {
                    &&& r matches Ok(locker)
                    &&& locker.spec_number() == key.spec_locker_number()
                    &&& locker.spec_max_items() == old(self).spec_max_items_per_locker()
                    &&& locker.spec_items() == b
                    &&& locker.wf()
                    &&& final(self)@ == old(self)@.update(
                        key.spec_locker_number() - 1,
                        SlotState::ContentsBeingChanged,
                    )
                },
                None => {
                    &&& if 1 <= key.spec_locker_number() <= old(self).spec_num_lockers() && old(
                        self,
                    )@[key.spec_locker_number() - 1] is ContentsBeingChanged {
                        &&& r == Result::<Locker, OpenLockerError>::Err(
                            OpenLockerError::NoStoredContents(key.spec_locker_number()),
                        )
                        &&& final(self)@ == old(self)@.update(
                            key.spec_locker_number() - 1,
                            SlotState::Free,
                        )
                    } else {
                        &&& r == Result::<Locker, OpenLockerError>::Err(
                            OpenLockerError::NoRecord(key.spec_locker_number()),
                        )
                        &&& *final(self) == *old(self)
                    }
                },
            },
    {
        let locker_number = key.get_locker_number();
        if locker_number < 1 || locker_number > self.num_lockers {
            return Err(OpenLockerError::NoRecord(locker_number));
        }
        match self.slots[locker_number - 1] {
            SlotState::Closed(items) => {
                self.slots[locker_number - 1] = SlotState::ContentsBeingChanged;
                let locker = Locker {
                    number: locker_number,
                    max_items: self.max_items_per_locker,
                    items,
                };
                Ok(locker)
            },
            SlotState::ContentsBeingChanged => {
                self.slots[locker_number - 1] = SlotState::Free;
                Err(OpenLockerError::NoStoredContents(locker_number))
            },
            SlotState::Free => Err(OpenLockerError::NoRecord(locker_number)),
        }
    }

    /// Consumes the caller's locker, returns the slot to free, and hands the
    /// bundle it held back to the caller. This is the only way contents
    /// leave the system; it always succeeds.
    pub fn vacate_locker(&mut self, locker: Locker) -> (r: CloakroomItems)
        requires
            old(self).wf(),
        ensures
            final(self).wf(),
            final(self).spec_num_lockers() == old(self).spec_num_lockers(),
            final(self).spec_max_items_per_locker() == old(self).spec_max_items_per_locker(),
            r == locker.spec_items(),
            1 <= locker.spec_number() <= old(self).spec_num_lockers() ==> final(self)@ == old(
                self,
            )@.update(locker.spec_number() - 1, SlotState::Free),
            !(1 <= locker.spec_number() <= old(self).spec_num_lockers()) ==> *final(self) == *old(
                self,
            ),
    {
        let locker_number = locker.get_locker_number();
        if 1 <= locker_number && locker_number <= self.num_lockers {
            self.slots[locker_number - 1] = SlotState::Free;
        }
        locker.items
    }

    /// Reports the observable state of a locker number without mutating
    /// anything. A number of 0, or one beyond the number of lockers, is
    /// `NonExistent` regardless of the cloakroom's state.
    pub fn get_locker_state(&self, locker_number: LockerNumber) -> (r: LockerState)
        requires
            self.wf(),
        ensures
            match r {
                LockerState::NonExistent => !(1 <= locker_number <= self.spec_num_lockers()),
                LockerState::Free => 1 <= locker_number <= self.spec_num_lockers() && self@[
                    locker_number - 1
                ] is Free,
                LockerState::ContentsBeingChanged => 1 <= locker_number
                    <= self.spec_num_lockers() && self@[locker_number - 1] is ContentsBeingChanged,
                LockerState::Closed(b) => 1 <= locker_number <= self.spec_num_lockers() && self@[
                    locker_number - 1
                ] == SlotState::Closed(b),
            },
    {
        if locker_number < 1 || locker_number > self.num_lockers {
            return LockerState::NonExistent;
        }
        match self.slots[locker_number - 1] {
            SlotState::Free => LockerState::Free,
            SlotState::ContentsBeingChanged => LockerState::ContentsBeingChanged,
            SlotState::Closed(items) => LockerState::Closed(items),
        }
    }
}

/// A slot table has a free slot exactly when its free count is positive.
/// Together with `lemma_find_claims_one_free_slot` this pins down the
/// allocation behaviour: starting from a table with `k` free slots, `k`
/// consecutive calls of `find_free_locker` succeed, and the next one
/// reports `NoFreeLockers`.
pub proof fn lemma_has_free_iff_free_count_positive(slots: Seq<SlotState>)
    ensures
        has_free_slot(slots) <==> free_count(slots) > 0,
    decreases slots.len(),
{
    if slots.len() == 0 {
    } else {
        lemma_has_free_iff_free_count_positive(slots.drop_last());
        if slots.last() is Free {
            assert(slots[slots.len() - 1] is Free);
        } else {
            if has_free_slot(slots) {
                let i = choose|i: int| 0 <= i < slots.len() && slots[i] is Free;
                assert(slots.drop_last()[i] is Free);
            }
            if has_free_slot(slots.drop_last()) {
                let i = choose|i: int|
                    0 <= i < slots.drop_last().len() && slots.drop_last()[i] is Free;
                assert(slots[i] is Free);
            }
        }
    }
}

/// In a table whose slots are all free — as in a newly created cloakroom —
/// the free count is the number of lockers. With the two neighbouring
/// lemmas: from a fresh cloakroom of `num_lockers` lockers, exactly
/// `num_lockers` consecutive `find_free_locker` calls succeed before one
/// reports `NoFreeLockers`.
pub proof fn lemma_all_free_count(slots: Seq<SlotState>)
    requires
        forall|i: int| 0 <= i < slots.len() ==> (#[trigger] slots[i]) is Free,
    ensures
        free_count(slots) == slots.len(),
    decreases slots.len(),
{
    if slots.len() == 0 {
    } else {
        lemma_all_free_count(slots.drop_last());
    }
}

/// A successful `find_free_locker` claims exactly one free slot: marking a
/// free slot as having its contents changed lowers the free count by one
/// and changes nothing else.
pub proof fn lemma_find_claims_one_free_slot(slots: Seq<SlotState>, i: int)
    requires
        0 <= i < slots.len(),
        slots[i] is Free,
    ensures
        free_count(slots.update(i, SlotState::ContentsBeingChanged)) + 1 == free_count(slots),
    decreases slots.len(),
{
    let updated = slots.update(i, SlotState::ContentsBeingChanged);
    if i == slots.len() - 1 {
        assert(updated.drop_last() =~= slots.drop_last());
    } else {
        lemma_find_claims_one_free_slot(slots.drop_last(), i);
        assert(updated.drop_last() =~= slots.drop_last().update(
            i,
            SlotState::ContentsBeingChanged,
        ));
    }
}

/// Closing a locker and immediately reopening it with the resulting key
/// yields exactly the bundle that was closed: the stored contents under the
/// closed number are the closed bundle, field for field.
pub proof fn lemma_close_then_open_round_trip(
    slots: Seq<SlotState>,
    number: LockerNumber,
    b: CloakroomItems,
)
    requires
        1 <= number <= slots.len(),
    ensures
        spec_stored_items(spec_close_slots(slots, number, b), number) == Some(b),
{
}

/// A vacated slot can be found again: returning any slot to free leaves the
/// table with a free slot, so a subsequent `find_free_locker` succeeds and
/// may reallocate that exact number.
pub proof fn lemma_vacated_slot_can_be_found(slots: Seq<SlotState>, i: int)
    requires
        0 <= i < slots.len(),
    ensures
        has_free_slot(slots.update(i, SlotState::Free)),
{
    assert(slots.update(i, SlotState::Free)[i] is Free);
}

} // verus!
