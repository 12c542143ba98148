//! The tables in which a connection keeps what it has handed out to the
//! other side and what the other side has handed to it.

use std::cmp::Ordering;
use std::collections::HashMap;
use vstd::multiset::Multiset;
use vstd::prelude::*;
use vstd::std_specs::cmp::PartialOrdSpec;

verus! {

broadcast use vstd::std_specs::hash::group_hash_axioms;

/// Names a question that one side has asked and the other has to answer.
pub type QuestionId = u32;

/// The same number, as the side that has to answer sees it.
pub type AnswerId = QuestionId;

/// Names a capability that one side hosts for the other.
pub type ExportId = u32;

/// The same number, as the side that uses the capability sees it.
pub type ImportId = ExportId;

/// A number under the reversed order: the lower value is the greater one, so
/// that taking the greatest element prioritizes lower values.
#[derive(Clone, Copy, PartialEq, Eq, Structural)]
pub struct ReverseU32 {
    pub val: u32,
}

impl PartialOrd for ReverseU32 {
    fn partial_cmp(&self, other: &ReverseU32) -> (ordering: Option<Ordering>) {
        if self.val > other.val {
            Some(Ordering::Less)
        } else if self.val < other.val {
            Some(Ordering::Greater)
        } else {
            Some(Ordering::Equal)
        }
    }
}

impl vstd::std_specs::cmp::PartialOrdSpecImpl for ReverseU32 {
    open spec fn obeys_partial_cmp_spec() -> bool {
        true
    }

    open spec fn partial_cmp_spec(&self, other: &ReverseU32) -> Option<Ordering> {
        if self.val > other.val {
            Some(Ordering::Less)
        } else if self.val < other.val {
            Some(Ordering::Greater)
        } else {
            Some(Ordering::Equal)
        }
    }
}

/// The numbers that a table may hand out again. One number may be in it more
/// than once.
pub(crate) struct FreeIds {
    /// In ascending order of `ReverseU32`, so that the lowest number is last.
    ids: Vec<ReverseU32>,
}

/// The plain numbers of a sequence of reversed ones.
spec fn vals(ids: Seq<ReverseU32>) -> Seq<u32> {
    ids.map_values(|id: ReverseU32| id.val)
}

/// `id` is in `ids`, and no number in it is lower.
pub open spec fn is_lowest(ids: Multiset<u32>, id: u32) -> bool {
    &&& ids.contains(id)
    &&& forall|other: u32| #[trigger] ids.contains(other) ==> id <= other
}

impl View for FreeIds {
    type V = Multiset<u32>;

    closed spec fn view(&self) -> Multiset<u32> {
        vals(self.ids@).to_multiset()
    }
}

impl FreeIds {
    /// The numbers stand in descending order.
    pub closed spec fn wf(self) -> bool {
        forall|i: int, j: int|
            0 <= i <= j < self.ids@.len() ==> #[trigger] self.ids@[i].val >= #[trigger] self.ids@[j].val
    }

    pub fn new() -> (free: FreeIds)
        ensures
            free.wf(),
            free@ == Multiset::<u32>::empty(),
    {
        let free = FreeIds { ids: Vec::new() };
        proof {
            vals(free.ids@).to_multiset_ensures();
            assert(free@ =~= Multiset::<u32>::empty());
        }
        free
    }

    pub fn len(&self) -> (len: usize)
        ensures
            len == self@.len(),
    {
        proof {
            vals(self.ids@).to_multiset_ensures();
        }
        self.ids.len()
    }

    /// Adds `id`, whether or not it is there already.
    pub fn push(&mut self, id: u32)
        requires
            old(self).wf(),
        ensures
            final(self).wf(),
            final(self)@ == old(self)@.insert(id),
    {
        let item = ReverseU32 { val: id };
        let mut at: usize = self.ids.len();
        while at > 0 && item < self.ids[at - 1]
            invariant
                item.val == id,
                self.wf(),
                at <= self.ids@.len(),
                forall|j: int| at <= j < self.ids@.len() ==> #[trigger] self.ids@[j].val < id,
            decreases at,
        {
            at = at - 1;
        }
        let ghost before = self.ids@;
        assert(forall|j: int| 0 <= j < at ==> #[trigger] before[j].val >= id);
        self.ids.insert(at, item);
        proof {
            let old_vals = vals(before);
            let i = at as int;
            let head = old_vals.subrange(0, i);
            let tail = old_vals.subrange(i, old_vals.len() as int);
            assert(old_vals =~= head + tail);
            assert(vals(self.ids@) =~= head + (seq![id] + tail));
            vstd::seq_lib::lemma_multiset_commutative(head, tail);
            vstd::seq_lib::lemma_multiset_commutative(head, seq![id] + tail);
            vstd::seq_lib::lemma_multiset_commutative(seq![id], tail);
            assert(seq![id] =~= Seq::<u32>::empty().push(id));
            Seq::<u32>::empty().to_multiset_ensures();
            assert(self@ =~= old(self)@.insert(id));
        }
    }

    /// Takes the lowest number out.
    pub fn pop(&mut self) -> (lowest: Option<u32>)
        requires
            old(self).wf(),
        ensures
            final(self).wf(),
            match lowest {
                Some(id) => is_lowest(old(self)@, id) && final(self)@ == old(self)@.remove(id),
                None => old(self)@ == Multiset::<u32>::empty() && final(self)@ == old(self)@,
            },
    {
        let ghost before = self.ids@;
        proof {
            vals(before).to_multiset_ensures();
        }
        match self.ids.pop() {
            Some(item) => {
                proof {
                    let last = before.len() - 1;
                    assert(vals(self.ids@) =~= vals(before).remove(last));
                    assert(vals(before)[last] == item.val);
                    assert(vals(before).contains(item.val));
                    assert forall|other: u32| #[trigger]
                        old(self)@.contains(other) implies item.val <= other by {
                        assert(vals(before).contains(other));
                        let j = choose|j: int| 0 <= j < vals(before).len() && vals(before)[j] == other;
                        assert(before[j].val == other);
                        assert(before[last].val == item.val);
                    }
                }
                Some(item.val)
            },
            None => {
                assert(vals(before) =~= Seq::<u32>::empty());
                assert(old(self)@ =~= Multiset::<u32>::empty());
                None
            },
        }
    }
}

/// What an export table holds: its slots, and the numbers it may hand out
/// again.
#[verifier::ext_equal]
pub struct ExportTableView<T> {
    pub slots: Seq<Option<T>>,
    pub free: Multiset<u32>,
}

impl<T> ExportTableView<T> {
    pub open spec fn empty() -> Self {
        ExportTableView { slots: Seq::empty(), free: Multiset::empty() }
    }

    /// `id` names a slot, whether or not something is in it.
    pub open spec fn has_slot(self, id: u32) -> bool {
        id < self.slots.len()
    }

    /// Something is in the slot that `id` names.
    pub open spec fn live(self, id: u32) -> bool {
        self.has_slot(id) && self.slots[id as int] is Some
    }

    /// What is in the slot that `id` names.
    pub open spec fn at(self, id: u32) -> T
        recommends
            self.live(id),
    {
        self.slots[id as int]->0
    }

    /// Every number that may be handed out again names a slot.
    pub open spec fn wf(self) -> bool {
        &&& self.slots.len() <= u32::MAX
        &&& forall|id: u32| #[trigger] self.free.contains(id) ==> self.has_slot(id)
    }

    /// The numbers that may be handed out again are those of the empty slots,
    /// each of them once.
    pub open spec fn consistent(self) -> bool {
        forall|id: u32| #[trigger]
            self.free.count(id) == (if self.has_slot(id) && !self.live(id) {
                1nat
            } else {
                0nat
            })
    }

    /// A value more can be put in without running out of numbers.
    pub open spec fn has_room(self) -> bool {
        self.free.len() > 0 || self.slots.len() < u32::MAX
    }

    /// `id` is the number under which the next value is put in: the lowest
    /// one that may be handed out again or, if there is none, a new one.
    pub open spec fn next_is(self, id: u32) -> bool {
        if self.free.len() > 0 {
            is_lowest(self.free, id)
        } else {
            id == self.slots.len()
        }
    }

    /// The table with `val` put in under `id`.
    pub open spec fn push(self, id: u32, val: T) -> Self {
        if self.free.len() > 0 {
            ExportTableView {
                slots: self.slots.update(id as int, Some(val)),
                free: self.free.remove(id),
            }
        } else {
            ExportTableView { slots: self.slots.push(Some(val)), free: self.free }
        }
    }

    /// The table with the slot of `id` emptied.
    pub open spec fn erase(self, id: u32) -> Self {
        ExportTableView {
            slots: self.slots.update(id as int, None),
            free: self.free.insert(id),
        }
    }

    /// The table with what is in the slot of `id` replaced.
    pub open spec fn set(self, id: u32, val: T) -> Self {
        ExportTableView { slots: self.slots.update(id as int, Some(val)), free: self.free }
    }
}

/// Values under numbers that this side picks. A number that has become free
/// is handed out again, lower ones first.
pub struct ExportTable<T> {
    slots: Vec<Option<T>>,
    // prioritize lower values
    free_ids: FreeIds,
}

impl<T> View for ExportTable<T> {
    type V = ExportTableView<T>;

    closed spec fn view(&self) -> ExportTableView<T> {
        ExportTableView { slots: self.slots@, free: self.free_ids@ }
    }
}

impl<T> ExportTable<T> {
    pub closed spec fn wf(self) -> bool {
        self.free_ids.wf() && self@.wf()
    }

    /// A well-formed table hands out only numbers of slots that it has.
    pub proof fn law_wf(self)
        requires
            self.wf(),
        ensures
            self@.wf(),
    {
    }

    pub fn new() -> (table: ExportTable<T>)
        ensures
            table.wf(),
            table@ == ExportTableView::<T>::empty(),
    {
        ExportTable { slots: Vec::new(), free_ids: FreeIds::new() }
    }

    /// Empties the slot of `id` and makes `id` free, even if the slot was
    /// empty before.
    pub fn erase(&mut self, id: u32)
        requires
            old(self).wf(),
            old(self)@.has_slot(id),
        ensures
            final(self).wf(),
            final(self)@ == old(self)@.erase(id),
    {
        self.slots.set(id as usize, None);
        self.free_ids.push(id);
        assert forall|other: u32| #[trigger] self@.free.contains(other) implies self@.has_slot(
            other,
        ) by {
            assert(other == id || old(self)@.free.contains(other));
        }
    }

    /// Puts `val` in and returns the number it is under.
    pub fn push(&mut self, val: T) -> (id: u32)
        requires
            old(self).wf(),
            old(self)@.has_room(),
        ensures
            final(self).wf(),
            old(self)@.next_is(id),
            final(self)@ == old(self)@.push(id, val),
            final(self)@.live(id),
            final(self)@.at(id) == val,
    {
        match self.free_ids.pop() {
            Some(id) => {
                self.slots.set(id as usize, Some(val));
                assert forall|other: u32| #[trigger]
                    self@.free.contains(other) implies self@.has_slot(other) by {
                    assert(old(self)@.free.contains(other));
                }
                id
            },
            None => {
                self.slots.push(Some(val));
                self.slots.len() as u32 - 1
            },
        }
    }

    /// What is in the slot of `id`, if there is such a slot and it is not
    /// empty.
    pub fn get(&self, id: u32) -> (val: Option<&T>)
        requires
            self.wf(),
        ensures
            match val {
                Some(val) => self@.live(id) && *val == self@.at(id),
                None => !self@.live(id),
            },
    {
        if (id as usize) < self.slots.len() {
            self.slots[id as usize].as_ref()
        } else {
            None
        }
    }

    /// What is in the slot of `id`, to be changed in place.
    pub fn get_mut(&mut self, id: u32) -> (val: Option<&mut T>)
        requires
            old(self).wf(),
        ensures
            final(self).wf(),
            match val {
                Some(val) => {
                    &&& old(self)@.live(id)
                    &&& *val == old(self)@.at(id)
                    &&& final(self)@ == old(self)@.set(id, *final(val))
                },
                None => !old(self)@.live(id) && final(self)@ == old(self)@,
            },
    {
        assert(self@.free == self.free_ids@);
        if (id as usize) < self.slots.len() {
            match &mut self.slots[id as usize] {
                Some(val) => Some(val),
                None => None,
            }
        } else {
            None
        }
    }

    /// Whether `id` names a slot, empty or not.
    pub fn has_slot(&self, id: u32) -> (yes: bool)
        requires
            self.wf(),
        ensures
            yes == self@.has_slot(id),
    {
        (id as usize) < self.slots.len()
    }

    /// Whether one value more can be put in.
    pub fn has_room(&self) -> (yes: bool)
        requires
            self.wf(),
        ensures
            yes == self@.has_room(),
    {
        self.free_ids.len() > 0 || self.slots.len() < u32::MAX as usize
    }
}

/// Marks a capability that the other side hosts.
#[derive(Clone, Copy)]
pub struct Import;

/// Values under numbers that the other side picks.
pub struct ImportTable<T> {
    slots: HashMap<u32, T>,
}

impl<T> View for ImportTable<T> {
    type V = Map<u32, T>;

    closed spec fn view(&self) -> Map<u32, T> {
        self.slots@
    }
}

impl<T> ImportTable<T> {
    pub fn new() -> (table: ImportTable<T>)
        ensures
            table@ == Map::<u32, T>::empty(),
    {
        ImportTable { slots: HashMap::new() }
    }

    /// Puts `val` in under `id`, in place of what was there.
    pub fn insert(&mut self, id: u32, val: T)
        ensures
            final(self)@ == old(self)@.insert(id, val),
    {
        self.slots.insert(id, val);
    }

    /// Takes out what is under `id`, if there is anything.
    pub fn remove(&mut self, id: u32)
        ensures
            final(self)@ == old(self)@.remove(id),
    {
        self.slots.remove(&id);
    }

    pub fn get(&self, id: u32) -> (val: Option<&T>)
        ensures
            match val {
                Some(val) => self@.contains_key(id) && *val == self@[id],
                None => !self@.contains_key(id),
            },
    {
        self.slots.get(&id)
    }
}

impl<T> ExportTableView<T> {
    /// There is exactly one number for the next value.
    pub proof fn law_next_id_is_unique(self, id: u32, other: u32)
        requires
            self.next_is(id),
            self.next_is(other),
        ensures
            id == other,
    {
        if self.free.len() > 0 {
            assert(self.free.contains(id) && self.free.contains(other));
        }
    }

    /// An empty table is consistent.
    pub proof fn law_empty_is_consistent()
        ensures
            Self::empty().consistent(),
            Self::empty().wf(),
    {
        assert forall|id: u32| #[trigger] Self::empty().free.contains(id) implies false by {}
    }

    /// In a consistent table the next number is not in use, every lower one
    /// is, and putting a value in under it touches no other value and leaves
    /// the table consistent.
    pub proof fn law_push_uses_the_lowest_unused_id(self, id: u32, val: T)
        requires
            self.wf(),
            self.consistent(),
            self.has_room(),
            self.next_is(id),
        ensures
            !self.live(id),
            forall|lower: u32| lower < id ==> #[trigger] self.live(lower),
            self.push(id, val).wf(),
            self.push(id, val).consistent(),
            self.push(id, val).live(id),
            self.push(id, val).at(id) == val,
            forall|other: u32|
                other != id ==> #[trigger] self.push(id, val).live(other) == self.live(other),
            forall|other: u32|
                other != id && self.live(other) ==> #[trigger] self.push(id, val).at(other)
                    == self.at(other),
    {
        let after = self.push(id, val);
        assert forall|lower: u32| lower < id implies #[trigger] self.live(lower) by {
            if self.free.len() > 0 {
                assert(self.free.contains(id));
                assert(self.has_slot(id));
                assert(self.free.count(lower) == if self.has_slot(lower) && !self.live(lower) {
                    1nat
                } else {
                    0nat
                });
                if self.free.count(lower) > 0 {
                    assert(self.free.contains(lower));
                }
            } else {
                self.lemma_no_free_ids(lower);
            }
        }
        if self.free.len() > 0 {
            assert(self.free.contains(id));
            assert(self.free.count(id) > 0);
        }
        assert forall|other: u32| #[trigger] after.free.contains(other) implies after.has_slot(
            other,
        ) by {
            assert(self.free.contains(other));
        }
        assert forall|other: u32| #[trigger]
            after.free.count(other) == (if after.has_slot(other) && !after.live(other) {
                1nat
            } else {
                0nat
            }) by {
            assert(self.free.count(other) == if self.has_slot(other) && !self.live(other) {
                1nat
            } else {
                0nat
            });
        }
    }

    proof fn lemma_no_free_ids(self, id: u32)
        requires
            self.free.len() == 0,
        ensures
            self.free.count(id) == 0,
    {
        if self.free.count(id) > 0 {
            assert(self.free.remove(id).len() == self.free.len() - 1);
        }
    }

    /// Emptying a slot that is in use leaves a consistent table consistent,
    /// and touches no other value.
    pub proof fn law_erase_frees_a_live_id(self, id: u32)
        requires
            self.wf(),
            self.consistent(),
            self.live(id),
        ensures
            self.erase(id).wf(),
            self.erase(id).consistent(),
            !self.erase(id).live(id),
            self.erase(id).free.contains(id),
            forall|other: u32|
                other != id ==> #[trigger] self.erase(id).live(other) == self.live(other),
            forall|other: u32|
                other != id && self.live(other) ==> #[trigger] self.erase(id).at(other)
                    == self.at(other),
    {
        let after = self.erase(id);
        assert forall|other: u32| #[trigger] after.free.contains(other) implies after.has_slot(
            other,
        ) by {
            assert(other == id || self.free.contains(other));
        }
        assert forall|other: u32| #[trigger]
            after.free.count(other) == (if after.has_slot(other) && !after.live(other) {
                1nat
            } else {
                0nat
            }) by {
            assert(self.free.count(other) == if self.has_slot(other) && !self.live(other) {
                1nat
            } else {
                0nat
            });
        }
    }

    /// Erasing what was just put in gives back the table as it was, but for
    /// a slot that may have been added and is now free.
    pub proof fn law_erase_undoes_push(self, id: u32, val: T)
        requires
            self.wf(),
            self.consistent(),
            self.has_room(),
            self.next_is(id),
        ensures
            self.free.len() > 0 ==> self.push(id, val).erase(id) == self,
            self.free.len() == 0 ==> self.push(id, val).erase(id) == (ExportTableView {
                slots: self.slots.push(None),
                free: self.free.insert(id),
            }),
            forall|other: u32| #[trigger]
                self.push(id, val).erase(id).live(other) == self.live(other),
    {
        if self.free.len() > 0 {
            assert(self.free.contains(id));
            assert(self.free.count(id) == if self.has_slot(id) && !self.live(id) {
                1nat
            } else {
                0nat
            });
            assert(self.free.remove(id).insert(id) =~= self.free);
            assert(self.push(id, val).erase(id).slots =~= self.slots);
        } else {
            assert(self.push(id, val).erase(id).slots =~= self.slots.push(None));
        }
    }

    /// A number that was freed is the next one to be handed out if no lower
    /// one is free.
    pub proof fn law_freed_id_is_reused(self, id: u32)
        requires
            self.live(id),
            forall|other: u32| #[trigger] self.free.contains(other) ==> id <= other,
        ensures
            self.erase(id).next_is(id),
            self.erase(id).has_room(),
    {
        let after = self.erase(id);
        assert(after.free.contains(id));
        assert forall|other: u32| #[trigger] after.free.contains(other) implies id <= other by {
            assert(other == id || self.free.contains(other));
        }
    }
}

impl<T> ExportTableView<T> {
    /// A number is in use if its slot holds something, and there is room as
    /// long as a number is free or not all of them were handed out.
    pub proof fn law_a_number_is_in_use_if_its_slot_is_filled(self, id: u32)
        ensures
            self.has_slot(id) <==> id < self.slots.len(),
            self.live(id) <==> id < self.slots.len() && self.slots[id as int] is Some,
            self.live(id) ==> self.slots[id as int] == Some(self.at(id)),
            self.has_room() <==> self.free.len() > 0 || self.slots.len() < 0xffff_ffff,
            self.free.len() == 0 ==> (self.next_is(id) <==> id == self.slots.len()),
            self.free.len() > 0 ==> (self.next_is(id) <==> self.free.contains(id) && (forall|
                other: u32,
            |
                #[trigger] self.free.contains(other) ==> id <= other)),
    {
    }

    /// Emptying a slot touches no other slot and makes its number free once
    /// more, whether or not something was in it.
    pub proof fn law_erase_empties_one_slot(self, id: u32, other: u32)
        requires
            id < self.slots.len(),
        ensures
            self.erase(id).slots.len() == self.slots.len(),
            self.erase(id).slots[id as int] is None,
            other != id && other < self.slots.len() ==> self.erase(id).slots[other as int]
                == self.slots[other as int],
            self.erase(id).free.count(id) == self.free.count(id) + 1,
            other != id ==> self.erase(id).free.count(other) == self.free.count(other),
    {
    }

    /// Putting a value in fills the slot of the next number, touches no other
    /// slot, and uses up one free number or adds one slot.
    pub proof fn law_push_fills_one_slot(self, id: u32, val: T, other: u32)
        requires
            self.wf(),
            self.next_is(id),
        ensures
            self.push(id, val).slots[id as int] == Some(val),
            other != id && other < self.slots.len() ==> self.push(id, val).slots[other as int]
                == self.slots[other as int],
            self.free.len() > 0 ==> {
                &&& self.push(id, val).slots.len() == self.slots.len()
                &&& self.push(id, val).free.count(id) + 1 == self.free.count(id)
            },
            self.free.len() == 0 ==> {
                &&& self.push(id, val).slots.len() == self.slots.len() + 1
                &&& self.push(id, val).free.count(id) == self.free.count(id)
            },
            other != id ==> self.push(id, val).free.count(other) == self.free.count(other),
    {
        if self.free.len() > 0 {
            assert(self.free.contains(id));
            assert(self.has_slot(id));
        }
    }

    /// Changing what is in a slot changes nothing else.
    pub proof fn law_set_changes_one_slot(self, id: u32, val: T, other: u32)
        requires
            id < self.slots.len(),
        ensures
            self.set(id, val).slots.len() == self.slots.len(),
            self.set(id, val).slots[id as int] == Some(val),
            other != id && other < self.slots.len() ==> self.set(id, val).slots[other as int]
                == self.slots[other as int],
            self.set(id, val).free == self.free,
    {
    }
}

/// A lower number is the greater one of two reversed ones, so that it comes out
/// first.
pub proof fn law_the_order_is_reversed(one: ReverseU32, other: ReverseU32)
    ensures
        one.val < other.val <==> PartialOrdSpec::partial_cmp_spec(&one, &other) == Some(
            Ordering::Greater,
        ),
        one.val > other.val <==> PartialOrdSpec::partial_cmp_spec(&one, &other) == Some(
            Ordering::Less,
        ),
        one.val == other.val <==> PartialOrdSpec::partial_cmp_spec(&one, &other) == Some(
            Ordering::Equal,
        ),
{
}

/// A table is seen with each of its slots, and with each number that may be
/// handed out again as often as it is among them.
proof fn law_a_table_shows_its_slots<T>(table: ExportTable<T>, imports: ImportTable<T>, ids: FreeIds)
    ensures
        table@.slots == table.slots@,
        table@.free == table.free_ids@,
        imports@ == imports.slots@,
        ids@ == ids.ids@.map_values(|id: ReverseU32| id.val).to_multiset(),
{
}

} // verus!
