//! Stacks of loot in the campaign inventory: merging battle loot in and
//! consuming stacks for crafting and trades.

use vstd::prelude::*;
use vstd::string::*;
use crate::error::CampaignError;
use crate::text::str_eq;

verus! {

/// A quantity of one item.
#[derive(Debug, Clone, PartialEq, Eq)]
pub struct LootStack {
    pub item_id: String,
    pub quantity: u16,
}

pub struct LootView {
    pub item_id: Seq<char>,
    pub quantity: u16,
}

impl View for LootStack {
    type V = LootView;

    open spec fn view(&self) -> LootView {
        LootView { item_id: self.item_id@, quantity: self.quantity }
    }
}

impl LootStack {
    fn copied(&self) -> (r: LootStack)
        ensures
            r@ == self@,
    {
        LootStack { item_id: self.item_id.clone(), quantity: self.quantity }
    }
}

pub open spec fn stacks_view(s: Seq<LootStack>) -> Seq<LootView> {
    s.map_values(|x: LootStack| x@)
}

/// Lexicographic order of texts by code point, which is the order in which
/// Rust compares `String`s (UTF-8 preserves code point order).
pub open spec fn lex_le(a: Seq<char>, b: Seq<char>) -> bool
    decreases a.len(),
{
    if a.len() == 0 {
        true
    } else if b.len() == 0 {
        false
    } else if a[0] != b[0] {
        (a[0] as int) < (b[0] as int)
    } else {
        lex_le(a.drop_first(), b.drop_first())
    }
}

proof fn lemma_lex_le_skip(a: Seq<char>, b: Seq<char>, i: int)
    requires
        0 <= i <= a.len(),
        i <= b.len(),
        a.subrange(0, i) == b.subrange(0, i),
    ensures
        lex_le(a, b) == lex_le(a.skip(i), b.skip(i)),
    decreases i,
{
    if i > 0 {
        assert(a[0] == a.subrange(0, i)[0]);
        assert(b[0] == b.subrange(0, i)[0]);
        assert(a.drop_first().subrange(0, i - 1) =~= a.subrange(0, i).drop_first());
        assert(b.drop_first().subrange(0, i - 1) =~= b.subrange(0, i).drop_first());
        lemma_lex_le_skip(a.drop_first(), b.drop_first(), i - 1);
        assert(a.drop_first().skip(i - 1) =~= a.skip(i));
        assert(b.drop_first().skip(i - 1) =~= b.skip(i));
    } else {
        assert(a.skip(0) =~= a);
        assert(b.skip(0) =~= b);
    }
}

proof fn lemma_lex_le_total(a: Seq<char>, b: Seq<char>)
    ensures
        lex_le(a, b) || lex_le(b, a),
    decreases a.len(),
{
    if a.len() > 0 && b.len() > 0 {
        if a[0] == b[0] {
            lemma_lex_le_total(a.drop_first(), b.drop_first());
        } else {
            assert((a[0] as int) != (b[0] as int));
        }
    }
}

proof fn lemma_lex_le_transitive(a: Seq<char>, b: Seq<char>, c: Seq<char>)
    requires
        lex_le(a, b),
        lex_le(b, c),
    ensures
        lex_le(a, c),
    decreases a.len(),
{
    if a.len() > 0 && b.len() > 0 && c.len() > 0 && a[0] == b[0] && b[0] == c[0] {
        lemma_lex_le_transitive(a.drop_first(), b.drop_first(), c.drop_first());
    }
}

/// Whether `a <= b` in the order of `String::cmp`.
pub fn text_le(a: &str, b: &str) -> (r: bool)
    ensures
        r == lex_le(a@, b@),
{
    let n = a.unicode_len();
    let m = b.unicode_len();
    let mut i: usize = 0;
    while i < n && i < m
        invariant
            n == a@.len(),
            m == b@.len(),
            i <= n,
            i <= m,
            a@.subrange(0, i as int) == b@.subrange(0, i as int),
        decreases n - i,
    {
        let x = a.get_char(i);
        let y = b.get_char(i);
        if x != y {
            proof {
                lemma_lex_le_skip(a@, b@, i as int);
                assert(a@.skip(i as int)[0] == x);
                assert(b@.skip(i as int)[0] == y);
            }
            return (x as u32) < (y as u32);
        }
        assert(a@.subrange(0, i + 1) =~= a@.subrange(0, i as int).push(x));
        assert(b@.subrange(0, i + 1) =~= b@.subrange(0, i as int).push(y));
        i = i + 1;
    }
    proof {
        lemma_lex_le_skip(a@, b@, i as int);
    }
    i == n
}

/// The first stack of `inv`, from index `start` on, that holds `id`; -1 if none.
pub open spec fn find_stack_from(inv: Seq<LootView>, id: Seq<char>, start: int) -> int
    decreases inv.len() - start,
{
    if start < 0 || start >= inv.len() {
        -1
    } else if inv[start].item_id == id {
        start
    } else {
        find_stack_from(inv, id, start + 1)
    }
}

/// `min(a + b, u16::MAX)`.
pub open spec fn sat_add_u16(a: u16, b: u16) -> u16 {
    if a + b > u16::MAX { u16::MAX } else { (a + b) as u16 }
}

/// Adds one incoming stack: onto the first stack of the same item, or as a
/// new stack at the end.
pub open spec fn merge_one(inv: Seq<LootView>, item: LootView) -> Seq<LootView> {
    let k = find_stack_from(inv, item.item_id, 0);
    if k >= 0 {
        inv.update(k, LootView { item_id: inv[k].item_id, quantity: sat_add_u16(inv[k].quantity, item.quantity) })
    } else {
        inv.push(item)
    }
}

pub open spec fn merge_all(inv: Seq<LootView>, loot: Seq<LootView>) -> Seq<LootView>
    decreases loot.len(),
{
    if loot.len() == 0 {
        inv
    } else {
        merge_one(merge_all(inv, loot.drop_last()), loot.last())
    }
}

/// Places `x` after the last element whose item id is not greater than its own.
pub open spec fn insert_by_id(s: Seq<LootView>, x: LootView) -> Seq<LootView>
    decreases s.len(),
{
    if s.len() == 0 {
        seq![x]
    } else if lex_le(s.last().item_id, x.item_id) {
        s.push(x)
    } else {
        insert_by_id(s.drop_last(), x).push(s.last())
    }
}

/// The stable sort of `s` by item id.
pub open spec fn sort_by_id(s: Seq<LootView>) -> Seq<LootView>
    decreases s.len(),
{
    if s.len() == 0 {
        s
    } else {
        insert_by_id(sort_by_id(s.drop_last()), s.last())
    }
}

/// The inventory after `loot` is merged into it and it is re-sorted by item id.
pub open spec fn spec_merge_loot(inv: Seq<LootView>, loot: Seq<LootView>) -> Seq<LootView> {
    sort_by_id(merge_all(inv, loot))
}

pub open spec fn sorted_by_id(s: Seq<LootView>) -> bool {
    forall|i: int, j: int| 0 <= i < j < s.len() ==> lex_le(#[trigger] s[i].item_id, #[trigger] s[j].item_id)
}

fn find_stack(inventory: &Vec<LootStack>, item_id: &str) -> (r: Option<usize>)
    ensures
        match r {
            Some(k) => find_stack_from(stacks_view(inventory@), item_id@, 0) == k as int
                && k < inventory@.len(),
            None => find_stack_from(stacks_view(inventory@), item_id@, 0) == -1,
        },
{
    let ghost v = stacks_view(inventory@);
    let mut i: usize = 0;
    while i < inventory.len()
        invariant
            v == stacks_view(inventory@),
            i <= inventory@.len(),
            find_stack_from(v, item_id@, 0) == find_stack_from(v, item_id@, i as int),
        decreases inventory@.len() - i,
    {
        if str_eq(inventory[i].item_id.as_str(), item_id) {
            return Some(i);
        }
        i = i + 1;
    }
    None
}

pub(crate) fn find_consumable(inventory: &Vec<LootStack>, item_id: &str, quantity: u16) -> (r: Option<usize>)
    ensures
        match r {
            Some(k) => find_consumable_from(stacks_view(inventory@), item_id@, quantity, 0) == k as int
                && k < inventory@.len() && inventory@[k as int].quantity >= quantity,
            None => find_consumable_from(stacks_view(inventory@), item_id@, quantity, 0) == -1,
        },
{
    let ghost v = stacks_view(inventory@);
    let mut i: usize = 0;
    while i < inventory.len()
        invariant
            v == stacks_view(inventory@),
            i <= inventory@.len(),
            find_consumable_from(v, item_id@, quantity, 0) == find_consumable_from(v, item_id@, quantity, i as int),
        decreases inventory@.len() - i,
    {
        if str_eq(inventory[i].item_id.as_str(), item_id) && inventory[i].quantity >= quantity {
            return Some(i);
        }
        i = i + 1;
    }
    None
}

fn insert_stack_by_id(sorted: &mut Vec<LootStack>, x: LootStack)
    ensures
        stacks_view(final(sorted)@) == insert_by_id(stacks_view(old(sorted)@), x@),
    decreases old(sorted)@.len(),
{
    let ghost s0 = stacks_view(sorted@);
    if sorted.len() == 0 {
        sorted.push(x);
        assert(stacks_view(sorted@) =~= seq![x@]);
        return;
    }
    let n = sorted.len();
    if text_le(sorted[n - 1].item_id.as_str(), x.item_id.as_str()) {
        sorted.push(x);
        assert(stacks_view(sorted@) =~= s0.push(x@));
    } else {
        let last = sorted.pop().unwrap();
        assert(stacks_view(sorted@) =~= s0.drop_last());
        insert_stack_by_id(sorted, x);
        sorted.push(last);
        assert(stacks_view(sorted@) =~= insert_by_id(s0.drop_last(), x@).push(s0.last()));
    }
}

/// Merges battle loot into the inventory: each incoming stack is added onto
/// the first stack of the same item (saturating at `u16::MAX`) or appended,
/// and the inventory is then stably sorted by item id.
pub fn merge_loot(inventory: &mut Vec<LootStack>, loot: &[LootStack])
    ensures
        stacks_view(final(inventory)@) == spec_merge_loot(stacks_view(old(inventory)@), stacks_view(loot@)),
{
    let ghost inv0 = stacks_view(inventory@);
    let ghost lv = stacks_view(loot@);
    let mut i: usize = 0;
    while i < loot.len()
        invariant
            lv == stacks_view(loot@),
            i <= loot@.len(),
            stacks_view(inventory@) == merge_all(inv0, lv.take(i as int)),
        decreases loot@.len() - i,
    {
        let ghost before = stacks_view(inventory@);
        assert(lv.take(i + 1).drop_last() =~= lv.take(i as int));
        assert(lv.take(i + 1).last() == loot@[i as int]@);
        let incoming = &loot[i];
        match find_stack(inventory, incoming.item_id.as_str()) {
            Some(k) => {
                let mut updated = inventory[k].copied();
                updated.quantity = updated.quantity.saturating_add(incoming.quantity);
                inventory.set(k, updated);
                assert(stacks_view(inventory@) =~= merge_one(before, incoming@));
            },
            None => {
                inventory.push(incoming.copied());
                assert(stacks_view(inventory@) =~= merge_one(before, incoming@));
            },
        }
        i = i + 1;
    }
    assert(lv.take(loot@.len() as int) =~= lv);
    let ghost merged = stacks_view(inventory@);
    let mut sorted: Vec<LootStack> = Vec::new();
    let mut j: usize = 0;
    while j < inventory.len()
        invariant
            merged == stacks_view(inventory@),
            j <= inventory@.len(),
            stacks_view(sorted@) == sort_by_id(merged.take(j as int)),
        decreases inventory@.len() - j,
    {
        assert(merged.take(j + 1).drop_last() =~= merged.take(j as int));
        assert(merged.take(j + 1).last() == inventory@[j as int]@);
        insert_stack_by_id(&mut sorted, inventory[j].copied());
        j = j + 1;
    }
    assert(merged.take(inventory@.len() as int) =~= merged);
    *inventory = sorted;
}

proof fn lemma_insert_by_id_keeps_sorted(s: Seq<LootView>, x: LootView)
    requires
        sorted_by_id(s),
    ensures
        sorted_by_id(insert_by_id(s, x)),
        insert_by_id(s, x).len() == s.len() + 1,
        forall|i: int| 0 <= i < insert_by_id(s, x).len() ==> (#[trigger] insert_by_id(s, x)[i] == x
            || s.contains(insert_by_id(s, x)[i])),
    decreases s.len(),
{
    if s.len() == 0 {
    } else if lex_le(s.last().item_id, x.item_id) {
        let r = s.push(x);
        assert forall|i: int, j: int| 0 <= i < j < r.len() implies lex_le(#[trigger] r[i].item_id, #[trigger] r[j].item_id) by {
            if j == s.len() {
                if i < s.len() - 1 {
                    lemma_lex_le_transitive(s[i].item_id, s.last().item_id, x.item_id);
                }
            }
        }
        assert forall|i: int| 0 <= i < r.len() implies (#[trigger] r[i] == x || s.contains(r[i])) by {
            if i < s.len() {
                assert(s[i] == r[i]);
            }
        }
    } else {
        let t = s.drop_last();
        assert(sorted_by_id(t));
        lemma_insert_by_id_keeps_sorted(t, x);
        let u = insert_by_id(t, x);
        let r = u.push(s.last());
        lemma_lex_le_total(s.last().item_id, x.item_id);
        assert forall|i: int| 0 <= i < u.len() implies lex_le(#[trigger] u[i].item_id, s.last().item_id) by {
            if u[i] == x {
            } else {
                assert(t.contains(u[i]));
                let k = choose|k: int| 0 <= k < t.len() && t[k] == u[i];
                assert(s[k] == t[k]);
                assert(lex_le(s[k].item_id, s[s.len() - 1].item_id));
            }
        }
        assert forall|i: int, j: int| 0 <= i < j < r.len() implies lex_le(#[trigger] r[i].item_id, #[trigger] r[j].item_id) by {
            if j == u.len() {
                assert(r[i] == u[i]);
            } else {
                assert(r[i] == u[i] && r[j] == u[j]);
            }
        }
        assert forall|i: int| 0 <= i < r.len() implies (#[trigger] r[i] == x || s.contains(r[i])) by {
            if i < u.len() {
                assert(r[i] == u[i]);
                if u[i] != x {
                    assert(t.contains(u[i]));
                    let k = choose|k: int| 0 <= k < t.len() && t[k] == u[i];
                    assert(s[k] == t[k]);
                }
            } else {
                assert(s[s.len() - 1] == r[i]);
            }
        }
    }
}

proof fn lemma_sort_by_id_sorted(s: Seq<LootView>)
    ensures
        sorted_by_id(sort_by_id(s)),
        sort_by_id(s).len() == s.len(),
    decreases s.len(),
{
    if s.len() > 0 {
        lemma_sort_by_id_sorted(s.drop_last());
        lemma_insert_by_id_keeps_sorted(sort_by_id(s.drop_last()), s.last());
    }
}

/// After loot is merged in, the inventory is sorted by item id.
pub proof fn lemma_merged_inventory_is_sorted(inv: Seq<LootView>, loot: Seq<LootView>)
    ensures
        sorted_by_id(spec_merge_loot(inv, loot)),
{
    lemma_sort_by_id_sorted(merge_all(inv, loot));
}

/// The number of items held over all stacks of `s`.
pub open spec fn total_quantity(s: Seq<LootView>) -> int
    decreases s.len(),
{
    if s.len() == 0 {
        0
    } else {
        total_quantity(s.drop_last()) + s.last().quantity
    }
}

proof fn lemma_total_push(s: Seq<LootView>, x: LootView)
    ensures
        total_quantity(s.push(x)) == total_quantity(s) + x.quantity,
{
    assert(s.push(x).drop_last() =~= s);
}

proof fn lemma_stack_within_total(s: Seq<LootView>, k: int)
    requires
        0 <= k < s.len(),
    ensures
        0 <= s[k].quantity <= total_quantity(s),
    decreases s.len(),
{
    lemma_total_nonnegative(s.drop_last());
    if k < s.len() - 1 {
        lemma_stack_within_total(s.drop_last(), k);
    }
}

proof fn lemma_total_nonnegative(s: Seq<LootView>)
    ensures
        total_quantity(s) >= 0,
    decreases s.len(),
{
    if s.len() > 0 {
        lemma_total_nonnegative(s.drop_last());
    }
}

proof fn lemma_total_update(s: Seq<LootView>, k: int, v: LootView)
    requires
        0 <= k < s.len(),
    ensures
        total_quantity(s.update(k, v)) == total_quantity(s) - s[k].quantity + v.quantity,
    decreases s.len(),
{
    let u = s.update(k, v);
    if k == s.len() - 1 {
        assert(u.drop_last() =~= s.drop_last());
    } else {
        assert(u.drop_last() =~= s.drop_last().update(k, v));
        lemma_total_update(s.drop_last(), k, v);
    }
}

proof fn lemma_find_stack_in_range(inv: Seq<LootView>, id: Seq<char>, start: int)
    requires
        0 <= start,
    ensures
        find_stack_from(inv, id, start) >= 0 ==> start <= find_stack_from(inv, id, start) < inv.len()
            && inv[find_stack_from(inv, id, start)].item_id == id,
    decreases inv.len() - start,
{
    if start < inv.len() && inv[start].item_id != id {
        lemma_find_stack_in_range(inv, id, start + 1);
    }
}

proof fn lemma_total_insert_by_id(s: Seq<LootView>, x: LootView)
    ensures
        total_quantity(insert_by_id(s, x)) == total_quantity(s) + x.quantity,
    decreases s.len(),
{
    if s.len() == 0 {
        assert(seq![x].drop_last() =~= s);
    } else if lex_le(s.last().item_id, x.item_id) {
        lemma_total_push(s, x);
    } else {
        lemma_total_insert_by_id(s.drop_last(), x);
        lemma_total_push(insert_by_id(s.drop_last(), x), s.last());
    }
}

proof fn lemma_total_sort_by_id(s: Seq<LootView>)
    ensures
        total_quantity(sort_by_id(s)) == total_quantity(s),
    decreases s.len(),
{
    if s.len() > 0 {
        lemma_total_sort_by_id(s.drop_last());
        lemma_total_insert_by_id(sort_by_id(s.drop_last()), s.last());
    }
}

proof fn lemma_total_merge_all(inv: Seq<LootView>, loot: Seq<LootView>)
    requires
        total_quantity(inv) + total_quantity(loot) <= u16::MAX,
    ensures
        total_quantity(merge_all(inv, loot)) == total_quantity(inv) + total_quantity(loot),
    decreases loot.len(),
{
    if loot.len() > 0 {
        let rest = loot.drop_last();
        let item = loot.last();
        lemma_total_nonnegative(rest);
        lemma_total_merge_all(inv, rest);
        let m = merge_all(inv, rest);
        let k = find_stack_from(m, item.item_id, 0);
        lemma_find_stack_in_range(m, item.item_id, 0);
        if k >= 0 {
            lemma_stack_within_total(m, k);
            lemma_total_update(m, k, LootView { item_id: m[k].item_id, quantity: sat_add_u16(m[k].quantity, item.quantity) });
        } else {
            lemma_total_push(m, item);
        }
    }
}

/// Merging battle loot loses no items: unless a stack would pass
/// `u16::MAX` (where it saturates), the inventory afterwards holds exactly
/// what it held before plus everything that was looted.
pub proof fn lemma_merge_conserves_items(inv: Seq<LootView>, loot: Seq<LootView>)
    requires
        total_quantity(inv) + total_quantity(loot) <= u16::MAX,
    ensures
        total_quantity(spec_merge_loot(inv, loot)) == total_quantity(inv) + total_quantity(loot),
{
    lemma_total_merge_all(inv, loot);
    lemma_total_sort_by_id(merge_all(inv, loot));
}

/// The first stack of `inv` from `start` on that holds at least `quantity`
/// of `id`; -1 if none.
pub open spec fn find_consumable_from(inv: Seq<LootView>, id: Seq<char>, quantity: u16, start: int) -> int
    decreases inv.len() - start,
{
    if start < 0 || start >= inv.len() {
        -1
    } else if inv[start].item_id == id && inv[start].quantity >= quantity {
        start
    } else {
        find_consumable_from(inv, id, quantity, start + 1)
    }
}

/// The stacks of `s` that are not empty, in order.
pub open spec fn keep_nonempty(s: Seq<LootView>) -> Seq<LootView>
    decreases s.len(),
{
    if s.len() == 0 {
        s
    } else if s.last().quantity > 0 {
        keep_nonempty(s.drop_last()).push(s.last())
    } else {
        keep_nonempty(s.drop_last())
    }
}

/// The inventory after `quantity` of `id` is taken from the first stack that
/// holds enough of it and empty stacks are dropped; `None` when no stack
/// holds enough.
pub open spec fn spec_consume_loot(inv: Seq<LootView>, id: Seq<char>, quantity: u16) -> Option<Seq<LootView>> {
    let k = find_consumable_from(inv, id, quantity, 0);
    if k < 0 {
        None
    } else {
        Some(keep_nonempty(inv.update(k, LootView { item_id: inv[k].item_id, quantity: (inv[k].quantity - quantity) as u16 })))
    }
}

proof fn lemma_total_keep_nonempty(s: Seq<LootView>)
    ensures
        total_quantity(keep_nonempty(s)) == total_quantity(s),
    decreases s.len(),
{
    if s.len() > 0 {
        lemma_total_keep_nonempty(s.drop_last());
        if s.last().quantity > 0 {
            lemma_total_push(keep_nonempty(s.drop_last()), s.last());
        }
    }
}

proof fn lemma_find_consumable_in_range(inv: Seq<LootView>, id: Seq<char>, quantity: u16, start: int)
    requires
        0 <= start,
    ensures
        find_consumable_from(inv, id, quantity, start) >= 0 ==> start <= find_consumable_from(inv, id, quantity, start) < inv.len()
            && inv[find_consumable_from(inv, id, quantity, start)].quantity >= quantity,
    decreases inv.len() - start,
{
    if start < inv.len() && !(inv[start].item_id == id && inv[start].quantity >= quantity) {
        lemma_find_consumable_in_range(inv, id, quantity, start + 1);
    }
}

/// Consuming takes exactly what was asked: after a successful consume the
/// inventory holds `quantity` fewer items, and it holds no empty stack.
pub proof fn lemma_consume_takes_exactly(inv: Seq<LootView>, id: Seq<char>, quantity: u16)
    ensures
        spec_consume_loot(inv, id, quantity) matches Some(after) ==> total_quantity(after) == total_quantity(inv) - quantity
            && forall|i: int| 0 <= i < after.len() ==> #[trigger] after[i].quantity > 0,
{
    let k = find_consumable_from(inv, id, quantity, 0);
    lemma_find_consumable_in_range(inv, id, quantity, 0);
    if k >= 0 {
        let changed = inv.update(k, LootView { item_id: inv[k].item_id, quantity: (inv[k].quantity - quantity) as u16 });
        lemma_total_update(inv, k, changed[k]);
        lemma_total_keep_nonempty(changed);
        lemma_keep_nonempty_has_no_empty(changed);
    }
}

proof fn lemma_keep_nonempty_has_no_empty(s: Seq<LootView>)
    ensures
        forall|i: int| 0 <= i < keep_nonempty(s).len() ==> #[trigger] keep_nonempty(s)[i].quantity > 0,
    decreases s.len(),
{
    if s.len() > 0 {
        lemma_keep_nonempty_has_no_empty(s.drop_last());
        let r = keep_nonempty(s.drop_last());
        if s.last().quantity > 0 {
            assert forall|i: int| 0 <= i < r.push(s.last()).len() implies #[trigger] r.push(s.last())[i].quantity > 0 by {
                if i < r.len() {
                    assert(r.push(s.last())[i] == r[i]);
                }
            }
        }
    }
}

/// Drops the empty stacks of the inventory, keeping the others in order.
pub fn drop_empty_stacks(inventory: &mut Vec<LootStack>)
    ensures
        stacks_view(final(inventory)@) == keep_nonempty(stacks_view(old(inventory)@)),
{
    let ghost v = stacks_view(inventory@);
    let mut kept: Vec<LootStack> = Vec::new();
    let mut j: usize = 0;
    while j < inventory.len()
        invariant
            v == stacks_view(inventory@),
            j <= inventory@.len(),
            stacks_view(kept@) == keep_nonempty(v.take(j as int)),
        decreases inventory@.len() - j,
    {
        assert(v.take(j + 1).drop_last() =~= v.take(j as int));
        assert(v.take(j + 1).last() == inventory@[j as int]@);
        if inventory[j].quantity > 0 {
            let ghost before = kept@;
            kept.push(inventory[j].copied());
            assert(stacks_view(kept@) =~= stacks_view(before).push(inventory@[j as int]@));
        }
        j = j + 1;
    }
    assert(v.take(inventory@.len() as int) =~= v);
    *inventory = kept;
}

/// Takes `quantity` of `item_id` out of the inventory.
pub fn consume_loot(inventory: &mut Vec<LootStack>, item_id: &str, quantity: u16) -> (r: Result<(), CampaignError>)
    ensures
        match spec_consume_loot(stacks_view(old(inventory)@), item_id@, quantity) {
            Some(after) => r is Ok && stacks_view(final(inventory)@) == after,
            None => (r matches Err(e) && e.is_state("missing loot item "@ + item_id@))
                && final(inventory)@ == old(inventory)@,
        },
{
    let ghost v = stacks_view(inventory@);
    let k = match find_consumable(inventory, item_id, quantity) {
        Some(k) => k,
        None => {
            return Err(CampaignError::InvalidState("missing loot item ".to_owned().concat(item_id)));
        },
    };
    let mut updated = inventory[k].copied();
    updated.quantity = updated.quantity - quantity;
    inventory.set(k, updated);
    let ghost changed = stacks_view(inventory@);
    assert(changed =~= v.update(k as int, LootView { item_id: v[k as int].item_id, quantity: (v[k as int].quantity - quantity) as u16 }));
    let mut kept: Vec<LootStack> = Vec::new();
    let mut j: usize = 0;
    while j < inventory.len()
        invariant
            changed == stacks_view(inventory@),
            j <= inventory@.len(),
            stacks_view(kept@) == keep_nonempty(changed.take(j as int)),
        decreases inventory@.len() - j,
    {
        assert(changed.take(j + 1).drop_last() =~= changed.take(j as int));
        assert(changed.take(j + 1).last() == inventory@[j as int]@);
        if inventory[j].quantity > 0 {
            let ghost before = kept@;
            kept.push(inventory[j].copied());
            assert(stacks_view(kept@) =~= stacks_view(before).push(inventory@[j as int]@));
        }
        j = j + 1;
    }
    assert(changed.take(inventory@.len() as int) =~= changed);
    *inventory = kept;
    Ok(())
}

} // verus!
