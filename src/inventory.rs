use crate::item::{Item, ItemView};
use vstd::prelude::*;

verus! {

/// The number of slots of an inventory made by `Inventory::new`.
pub const DEFAULT_MAX_SIZE: usize = 30;

/// One slot of an inventory: an item and how many of it the slot holds.
#[derive(Debug)]
pub struct InventorySlot {
    item: Item,
    amount: usize,
}

/// A slot as a value: the item and its count.
pub type SlotView = (ItemView, nat);

impl View for InventorySlot {
    type V = SlotView;

    closed spec fn view(&self) -> SlotView {
        (self.item@, self.amount as nat)
    }
}

impl InventorySlot {
    /// The item held by this slot
    pub fn item(&self) -> (r: &Item)
        ensures
            r@ == self@.0,
    {
        &self.item
    }

    /// How many of the item this slot holds
    pub fn amount(&self) -> (r: usize)
        ensures
            r as nat == self@.1,
    {
        self.amount
    }
}

/// A bounded, ordered collection of item slots.
#[derive(Debug)]
pub struct Inventory {
    contents: Vec<InventorySlot>,
    max_size: usize,
}

/// A slot can take one more of `item`: it holds that item and is below the
/// item's stack limit.
pub open spec fn is_open_for(slot: SlotView, item: ItemView) -> bool {
    slot.0 == item && slot.1 < item.stack_size
}

/// Some slot can take one more of `item`.
pub open spec fn has_open_slot(slots: Seq<SlotView>, item: ItemView) -> bool {
    exists|i: int| 0 <= i < slots.len() && is_open_for(#[trigger] slots[i], item)
}

/// `i` is the first slot that can take one more of `item`.
pub open spec fn is_first_open(slots: Seq<SlotView>, item: ItemView, i: int) -> bool {
    &&& 0 <= i < slots.len()
    &&& is_open_for(slots[i], item)
    &&& forall|j: int| 0 <= j < i ==> !is_open_for(#[trigger] slots[j], item)
}

/// The slots after one insertion of `item` into `slots` under a maximum of
/// `max` slots, and whether it succeeded: the first slot that can take the item
/// takes it; failing that a new slot is opened at the end while there is room;
/// otherwise nothing changes and the insertion fails.
pub open spec fn inserted(slots: Seq<SlotView>, max: nat, item: ItemView) -> (Seq<SlotView>, bool) {
    if has_open_slot(slots, item) {
        let i = choose|i: int| is_first_open(slots, item, i);
        (slots.update(i, (item, slots[i].1 + 1)), true)
    } else if slots.len() < max {
        (slots.push((item, 1)), true)
    } else {
        (slots, false)
    }
}

/// The rules that the slots of an inventory keep: no more than `max` of them;
/// each count at least one and within its item's stack limit (a slot opened
/// for an item whose limit is below one holds exactly one); and a slot that
/// holds the same item as a later slot is full.
pub open spec fn slots_wf(slots: Seq<SlotView>, max: nat) -> bool {
    &&& slots.len() <= max
    &&& forall|i: int|
        0 <= i < slots.len() ==> 1 <= (#[trigger] slots[i]).1 && (slots[i].1 <= slots[i].0.stack_size
            || slots[i].1 == 1)
    &&& forall|i: int, j: int|
        0 <= i < j < slots.len() && (#[trigger] slots[i]).0 == (#[trigger] slots[j]).0 ==> slots[i].1
            >= slots[i].0.stack_size
}

impl View for Inventory {
    type V = Seq<SlotView>;

    closed spec fn view(&self) -> Seq<SlotView> {
        self.contents@.map_values(|s: InventorySlot| s@)
    }
}

impl Inventory {
    /// The maximum number of slots
    pub closed spec fn capacity(&self) -> nat {
        self.max_size as nat
    }

    /// The inventory keeps the rules of `slots_wf` under its capacity.
    pub open spec fn wf(&self) -> bool {
        slots_wf(self@, self.capacity())
    }

    /// Creates an empty inventory of thirty slots
    pub fn new() -> (r: Inventory)
        ensures
            r.wf(),
            r@ == Seq::<SlotView>::empty(),
            r.capacity() == DEFAULT_MAX_SIZE,
    {
        Inventory::with_max_size(DEFAULT_MAX_SIZE)
    }

    /// Creates an empty inventory of `max_size` slots
    pub fn with_max_size(max_size: usize) -> (r: Inventory)
        ensures
            r.wf(),
            r@ == Seq::<SlotView>::empty(),
            r.capacity() == max_size,
    {
        let r = Inventory { contents: Vec::new(), max_size };
        proof {
            assert(r@ =~= Seq::<SlotView>::empty());
        }
        r
    }

    /// The slots, in the order they were opened
    pub fn slots(&self) -> (r: &Vec<InventorySlot>)
        ensures
            r@.len() == self@.len(),
            forall|i: int| 0 <= i < r@.len() ==> (#[trigger] r@[i])@ == self@[i],
    {
        &self.contents
    }

    /// Adds an item to the inventory. If the inventory is full, the item won't be added to the
    /// inventory and a `Err(Item)` is returned.
    pub fn add_item(&mut self, new_item: Item) -> (r: Result<(), Item>)
        requires
            old(self).wf(),
        ensures
            final(self).wf(),
            final(self).capacity() == old(self).capacity(),
            (final(self)@, r is Ok) == inserted(old(self)@, old(self).capacity(), new_item@),
            r matches Err(back) ==> back == new_item,
    {
        let ghost slots = self@;
        let mut i: usize = 0;
        while i < self.contents.len()
            invariant
                self@ == slots,
                slots == old(self)@,
                self.wf(),
                self.capacity() == old(self).capacity(),
                self.contents@.len() == slots.len(),
                0 <= i <= slots.len(),
                forall|j: int| 0 <= j < i ==> !is_open_for(#[trigger] slots[j], new_item@),
            decreases slots.len() - i,
        {
            assert(self.contents@[i as int]@ == slots[i as int]);
            if self.contents[i].item == new_item && self.contents[i].item.stack_size
                > self.contents[i].amount {
                assert(is_first_open(slots, new_item@, i as int));
                self.contents[i].amount = self.contents[i].amount + 1;
                proof {
                    let k = choose|k: int| is_first_open(slots, new_item@, k);
                    assert(has_open_slot(slots, new_item@));
                    assert(k == i as int);
                    assert(self@ =~= slots.update(k, (new_item@, slots[k].1 + 1)));
                    lemma_merge_keeps_wf(slots, self.capacity(), new_item@, k);
                }
                return Ok(());
            }
            i = i + 1;
        }
        assert(!has_open_slot(slots, new_item@));
        if self.contents.len() < self.max_size {
            self.contents.push(InventorySlot { item: new_item, amount: 1 });
            proof {
                assert(self@ =~= slots.push((new_item@, 1)));
                lemma_open_keeps_wf(slots, self.capacity(), new_item@);
            }
            Ok(())
        } else {
            Err(new_item)
        }
    }

    /// Returns `true` when every slot is taken
    pub fn is_full(&self) -> (r: bool)
        ensures
            r == (self@.len() == self.capacity()),
    {
        self.contents.len() == self.max_size
    }
}

/// Adding one to the first slot that can take `item` keeps the slot rules.
proof fn lemma_merge_keeps_wf(slots: Seq<SlotView>, max: nat, item: ItemView, k: int)
    requires
        slots_wf(slots, max),
        is_first_open(slots, item, k),
    ensures
        slots_wf(slots.update(k, (item, slots[k].1 + 1)), max),
{
    let s2 = slots.update(k, (item, slots[k].1 + 1));
    assert forall|i: int, j: int|
        0 <= i < j < s2.len() && (#[trigger] s2[i]).0 == (#[trigger] s2[j]).0 implies s2[i].1
        >= s2[i].0.stack_size by {
        if i == k {
            assert(slots[i].0 == slots[j].0);
        } else if j == k {
            assert(!is_open_for(slots[i], item));
        } else {
            assert(slots[i].0 == slots[j].0);
        }
    }
}

/// Opening a new slot for `item` when no slot can take it keeps the slot rules.
proof fn lemma_open_keeps_wf(slots: Seq<SlotView>, max: nat, item: ItemView)
    requires
        slots_wf(slots, max),
        !has_open_slot(slots, item),
        slots.len() < max,
    ensures
        slots_wf(slots.push((item, 1)), max),
{
    let s2 = slots.push((item, 1));
    assert forall|i: int, j: int|
        0 <= i < j < s2.len() && (#[trigger] s2[i]).0 == (#[trigger] s2[j]).0 implies s2[i].1
        >= s2[i].0.stack_size by {
        if j == slots.len() {
            assert(!is_open_for(slots[i], item));
        } else {
            assert(slots[i].0 == slots[j].0);
        }
    }
}

/// The slots after inserting `items` one by one, first to last, and whether
/// every insertion succeeded.
pub open spec fn inserted_all(slots: Seq<SlotView>, max: nat, items: Seq<ItemView>) -> (
    Seq<SlotView>,
    bool,
)
    decreases items.len(),
{
    if items.len() == 0 {
        (slots, true)
    } else {
        let (before, ok) = inserted_all(slots, max, items.drop_last());
        let (after, last_ok) = inserted(before, max, items.last());
        (after, ok && last_ok)
    }
}

/// The slots after inserting `item` `n` times, and whether every insertion
/// succeeded.
pub open spec fn inserted_times(slots: Seq<SlotView>, max: nat, item: ItemView, n: nat) -> (
    Seq<SlotView>,
    bool,
)
    decreases n,
{
    if n == 0 {
        (slots, true)
    } else {
        let (before, ok) = inserted_times(slots, max, item, (n - 1) as nat);
        let (after, last_ok) = inserted(before, max, item);
        (after, ok && last_ok)
    }
}

/// Inserting mutually distinct items into an empty inventory opens one slot
/// per item, each holding one; all insertions succeed exactly when there are
/// no more items than slots, and then the inventory is full exactly when the
/// number of items reaches the maximum.
pub proof fn lemma_distinct_items_take_one_slot_each(items: Seq<ItemView>, max: nat)
    requires
        forall|i: int, j: int| 0 <= i < j < items.len() ==> items[i] != items[j],
    ensures
        ({
            let (slots, ok) = inserted_all(Seq::empty(), max, items);
            &&& ok <==> items.len() <= max
            &&& ok ==> slots.len() == items.len()
            &&& ok ==> forall|k: int| 0 <= k < items.len() ==> #[trigger] slots[k] == (items[k], 1nat)
            &&& ok ==> (slots.len() == max <==> items.len() == max)
        }),
    decreases items.len(),
{
    if items.len() > 0 {
        let front = items.drop_last();
        lemma_distinct_items_take_one_slot_each(front, max);
        let (before, ok) = inserted_all(Seq::empty(), max, front);
        if ok {
            let item = items.last();
            assert forall|i: int| 0 <= i < before.len() implies !is_open_for(
                #[trigger] before[i],
                item,
            ) by {
                assert(before[i] == (front[i], 1nat));
                assert(items[i] != items[items.len() - 1]);
            }
            if before.len() < max {
                let after = before.push((item, 1nat));
                assert forall|k: int| 0 <= k < items.len() implies #[trigger] after[k] == (
                    items[k],
                    1nat,
                ) by {
                    if k < front.len() {
                        assert(before[k] == (front[k], 1nat));
                    }
                }
            }
        } else {
            let (after, last_ok) = inserted(before, max, items.last());
        }
    }
}

/// Inserting an item whose stack limit `s` is at least two into an empty
/// inventory `s` times fills one slot to `s`; the next insertion of it opens a
/// second slot when there is room for one and fails otherwise.
pub proof fn lemma_stack_fills_before_new_slot(item: ItemView, max: nat)
    requires
        item.stack_size >= 2,
        max >= 1,
    ensures
        inserted_times(Seq::empty(), max, item, item.stack_size) == (
            seq![(item, item.stack_size)],
            true,
        ),
        inserted_times(Seq::empty(), max, item, item.stack_size + 1) == if max >= 2 {
            (seq![(item, item.stack_size), (item, 1nat)], true)
        } else {
            (seq![(item, item.stack_size)], false)
        },
{
    lemma_stack_grows(item, max, item.stack_size);
    let full = seq![(item, item.stack_size)];
    assert(!is_open_for(full[0], item));
    assert(!has_open_slot(full, item));
    if max >= 2 {
        assert(full.push((item, 1nat)) =~= seq![(item, item.stack_size), (item, 1nat)]);
    }
}

/// Up to its stack limit, inserting `item` `n` times into an empty inventory
/// gives one slot of `n`.
proof fn lemma_stack_grows(item: ItemView, max: nat, n: nat)
    requires
        1 <= n <= item.stack_size,
        max >= 1,
    ensures
        inserted_times(Seq::empty(), max, item, n) == (seq![(item, n)], true),
    decreases n,
{
    if n == 1 {
        let empty = Seq::<SlotView>::empty();
        assert(inserted_times(empty, max, item, 0) == (empty, true));
        assert(!has_open_slot(empty, item));
        assert(empty.push((item, 1nat)) =~= seq![(item, 1nat)]);
    } else {
        lemma_stack_grows(item, max, (n - 1) as nat);
        let before = seq![(item, (n - 1) as nat)];
        assert(is_first_open(before, item, 0));
        assert(has_open_slot(before, item));
        let k = choose|k: int| is_first_open(before, item, k);
        assert(k == 0);
        assert(before.update(0, (item, before[0].1 + 1)) =~= seq![(item, n)]);
    }
}

/// Two insertions of an item whose stack limit is one, into an inventory that
/// keeps the slot rules and has two free slots, open two new slots of one each.
pub proof fn lemma_unstackable_takes_new_slots(slots: Seq<SlotView>, max: nat, item: ItemView)
    requires
        slots_wf(slots, max),
        item.stack_size == 1,
        slots.len() + 2 <= max,
    ensures
        inserted_times(slots, max, item, 2) == (slots.push((item, 1nat)).push((item, 1nat)), true),
{
    assert(inserted_times(slots, max, item, 0) == (slots, true));
    assert forall|i: int| 0 <= i < slots.len() implies !is_open_for(#[trigger] slots[i], item) by {
        assert(1 <= slots[i].1);
    }
    assert(!has_open_slot(slots, item));
    assert(inserted_times(slots, max, item, 1) == (slots.push((item, 1nat)), true));
    let once = slots.push((item, 1nat));
    assert(!is_open_for(once[slots.len() as int], item));
    assert forall|i: int| 0 <= i < once.len() implies !is_open_for(#[trigger] once[i], item) by {
        if i < slots.len() {
            assert(once[i] == slots[i]);
        }
    }
    assert(!has_open_slot(once, item));
}

} // verus!
