//! A map keyed by byte strings of one size, kept in ascending order of its keys.
use vstd::prelude::*;

use crate::fixed_bytes;
use crate::fixed_bytes::{position, Position};

verus! {

/// The keys stand in ascending order, so that none occurs twice.
pub open spec fn ascending<const N: usize, V>(entries: Seq<([u8; N], V)>) -> bool {
    forall|i: int, j: int|
        0 <= i < j < entries.len() ==> fixed_bytes::precedes(
            (#[trigger] entries[i]).0@,
            (#[trigger] entries[j]).0@,
        )
}

/// Some entry has the key `key`.
pub open spec fn has_key<const N: usize, V>(entries: Seq<([u8; N], V)>, key: [u8; N]) -> bool {
    exists|i: int| 0 <= i < entries.len() && (#[trigger] entries[i]).0 == key
}

/// What is left in a map after the entries were put in one after another: the
/// last entry for a key decides.
pub open spec fn collected<const N: usize, V>(entries: Seq<([u8; N], V)>) -> Map<[u8; N], V>
    decreases entries.len(),
{
    if entries.len() == 0 {
        Map::empty()
    } else {
        collected(entries.drop_last()).insert(entries.last().0, entries.last().1)
    }
}

/// The map that an ascending list of entries stands for.
pub open spec fn as_map<const N: usize, V>(entries: Seq<([u8; N], V)>) -> Map<[u8; N], V> {
    Map::new(
        |key: [u8; N]| has_key(entries, key),
        |key: [u8; N]|
            entries[choose|i: int|
                0 <= i < entries.len() && (#[trigger] entries[i]).0 == key].1,
    )
}

/// In an ascending list each entry is the one that the map holds for its key.
proof fn lemma_entry<const N: usize, V>(entries: Seq<([u8; N], V)>, i: int)
    requires
        ascending(entries),
        0 <= i < entries.len(),
    ensures
        as_map(entries).dom().contains(entries[i].0),
        as_map(entries)[entries[i].0] == entries[i].1,
{
    let key = entries[i].0;
    let k = choose|k: int| 0 <= k < entries.len() && (#[trigger] entries[k]).0 == key;
    fixed_bytes::precedes_irreflexive(key@);
}

/// Two ascending lists that stand for one map are the same list: the contents
/// alone fix the order in which a map is read out.
pub proof fn ascending_lists_are_canonical<const N: usize, V>(
    a: Seq<([u8; N], V)>,
    b: Seq<([u8; N], V)>,
)
    requires
        ascending(a),
        ascending(b),
        as_map(a) == as_map(b),
    ensures
        a == b,
    decreases a.len(),
{
    if a.len() == 0 {
        if b.len() > 0 {
            lemma_entry(b, 0);
        }
        assert(a =~= b);
    } else {
        lemma_entry(a, a.len() - 1);
        let j = choose|j: int| 0 <= j < b.len() && (#[trigger] b[j]).0 == a.last().0;
        lemma_entry(b, b.len() - 1);
        let i = choose|i: int| 0 <= i < a.len() && (#[trigger] a[i]).0 == b.last().0;
        if i < a.len() - 1 && j < b.len() - 1 {
            fixed_bytes::precedes_asymmetric(a[i].0@, a.last().0@);
        }
        assert(a.last().0 == b.last().0);
        assert(a.last() == b.last());
        lemma_drop_last(a);
        lemma_drop_last(b);
        ascending_lists_are_canonical(a.drop_last(), b.drop_last());
        assert(a =~= a.drop_last().push(a.last()));
        assert(b =~= b.drop_last().push(b.last()));
    }
}

/// Without its last entry an ascending list stands for the map without that key.
proof fn lemma_drop_last<const N: usize, V>(entries: Seq<([u8; N], V)>)
    requires
        ascending(entries),
        entries.len() > 0,
    ensures
        ascending(entries.drop_last()),
        as_map(entries.drop_last()) == as_map(entries).remove(entries.last().0),
{
    let shorter = entries.drop_last();
    let last = entries.last().0;
    assert(ascending(shorter));
    assert forall|key: [u8; N]| #[trigger]
        as_map(shorter).dom().contains(key) implies as_map(entries).remove(last).dom().contains(key)
        && as_map(shorter)[key] == as_map(entries)[key] by {
        let i = choose|i: int| 0 <= i < shorter.len() && (#[trigger] shorter[i]).0 == key;
        lemma_entry(shorter, i);
        lemma_entry(entries, i);
        assert(entries[i] == shorter[i]);
        fixed_bytes::precedes_irreflexive(key@);
    }
    assert forall|key: [u8; N]| #[trigger]
        as_map(entries).remove(last).dom().contains(key) implies as_map(shorter).dom().contains(
        key,
    ) by {
        let i = choose|i: int| 0 <= i < entries.len() && (#[trigger] entries[i]).0 == key;
        assert(shorter[i] == entries[i]);
    }
    assert(as_map(shorter) =~= as_map(entries).remove(last));
}

/// No two entries have the same key.
pub open spec fn keys_differ<const N: usize, V>(entries: Seq<([u8; N], V)>) -> bool {
    forall|i: int, j: int|
        0 <= i < j < entries.len() ==> (#[trigger] entries[i]).0 != (#[trigger] entries[j]).0
}

/// Of entries with different keys none is lost and none is made up.
pub proof fn entries_with_different_keys_are_kept<const N: usize, V>(
    entries: Seq<([u8; N], V)>,
    key: [u8; N],
    value: V,
)
    requires
        keys_differ(entries),
    ensures
        collected(entries).dom().contains(key) <==> has_key(entries, key),
        entries.contains((key, value)) <==> collected(entries).dom().contains(key) && collected(
            entries,
        )[key] == value,
    decreases entries.len(),
{
    if entries.len() > 0 {
        let shorter = entries.drop_last();
        let last = entries.last();
        entries_with_different_keys_are_kept(shorter, key, value);
        assert(entries =~= shorter.push(last));
        assert(entries[entries.len() - 1] == last);
        assert(forall|i: int| 0 <= i < shorter.len() ==> #[trigger] shorter[i] == entries[i]);
        if has_key(shorter, key) {
            let i = choose|i: int| 0 <= i < shorter.len() && (#[trigger] shorter[i]).0 == key;
            assert(entries[i].0 == key);
        }
        if has_key(entries, key) && key != last.0 {
            let i = choose|i: int| 0 <= i < entries.len() && (#[trigger] entries[i]).0 == key;
            assert(shorter[i].0 == key);
        }
        if entries.contains((key, value)) {
            let i = choose|i: int| 0 <= i < entries.len() && entries[i] == (key, value);
            if i < shorter.len() {
                assert(shorter[i] == (key, value));
                assert(key != last.0);
            }
        }
        if shorter.contains((key, value)) {
            let i = choose|i: int| 0 <= i < shorter.len() && shorter[i] == (key, value);
            assert(entries[i] == (key, value));
        }
    }
}

/// What is collected from entries with different keys does not depend on the
/// order in which they come.
pub proof fn order_of_entries_does_not_matter<const N: usize, V>(
    a: Seq<([u8; N], V)>,
    b: Seq<([u8; N], V)>,
)
    requires
        keys_differ(a),
        keys_differ(b),
        forall|entry: ([u8; N], V)| #[trigger] a.contains(entry) <==> b.contains(entry),
    ensures
        collected(a) == collected(b),
{
    assert forall|key: [u8; N]| #[trigger] collected(a).dom().contains(key) implies collected(
        b,
    ).dom().contains(key) && collected(b)[key] == collected(a)[key] by {
        entries_with_different_keys_are_kept(a, key, collected(a)[key]);
        entries_with_different_keys_are_kept(b, key, collected(a)[key]);
        assert(a.contains((key, collected(a)[key])));
    }
    assert forall|key: [u8; N]| #[trigger] collected(b).dom().contains(key) implies collected(
        a,
    ).dom().contains(key) by {
        entries_with_different_keys_are_kept(b, key, collected(b)[key]);
        entries_with_different_keys_are_kept(a, key, collected(b)[key]);
        assert(a.contains((key, collected(b)[key])) <==> b.contains((key, collected(b)[key])));
    }
    assert(collected(a) =~= collected(b));
}

/// A key is collected if and only if some entry has it, and the last entry that has
/// it gives its value.
pub proof fn last_entry_decides<const N: usize, V>(entries: Seq<([u8; N], V)>, key: [u8; N])
    ensures
        collected(entries).dom().contains(key) <==> exists|i: int|
            0 <= i < entries.len() && (#[trigger] entries[i]).0 == key,
        forall|i: int|
            0 <= i < entries.len() && (#[trigger] entries[i]).0 == key && (forall|j: int|
                i < j < entries.len() ==> (#[trigger] entries[j]).0 != key) ==> collected(
                entries,
            )[key] == entries[i].1,
    decreases entries.len(),
{
    if entries.len() > 0 {
        let shorter = entries.drop_last();
        last_entry_decides(shorter, key);
        assert(forall|i: int| 0 <= i < shorter.len() ==> #[trigger] shorter[i] == entries[i]);
        assert(entries[entries.len() - 1] == entries.last());
        if entries.last().0 != key {
            if exists|i: int| 0 <= i < entries.len() && (#[trigger] entries[i]).0 == key {
                let i = choose|i: int| 0 <= i < entries.len() && (#[trigger] entries[i]).0 == key;
                assert(shorter[i].0 == key);
            }
            assert forall|i: int|
                0 <= i < entries.len() && (#[trigger] entries[i]).0 == key && (forall|j: int|
                    i < j < entries.len() ==> (#[trigger] entries[j]).0 != key) implies collected(
                entries,
            )[key] == entries[i].1 by {
                assert(shorter[i].0 == key);
            }
        }
    }
}

/// A map that is made from a list has the keys of the list and no others, and holds
/// under each of them the value that came last.
pub proof fn last_entry_for_a_key_stays<const N: usize, V>(
    list: Vec<([u8; N], V)>,
    res: OrderedMap<N, V>,
    key: [u8; N],
)
    requires
        call_ensures(OrderedMap::<N, V>::from_entries, (list,), res),
    ensures
        res@.dom().contains(key) <==> exists|i: int|
            0 <= i < list@.len() && (#[trigger] list@[i]).0 == key,
        forall|i: int|
            0 <= i < list@.len() && (#[trigger] list@[i]).0 == key && (forall|j: int|
                i < j < list@.len() ==> (#[trigger] list@[j]).0 != key) ==> res@[key]
                == list@[i].1,
{
    last_entry_decides(list@, key);
}

/// A map is read out whole, each key once and with its value.
pub proof fn map_is_read_out_whole<const N: usize, V>(
    map: OrderedMap<N, V>,
    res: &Vec<([u8; N], V)>,
    key: [u8; N],
    value: V,
)
    requires
        call_ensures(OrderedMap::<N, V>::entries, (&map,), res),
    ensures
        res@.contains((key, value)) <==> map@.dom().contains(key) && map@[key] == value,
        forall|i: int, j: int|
            0 <= i < j < res@.len() ==> (#[trigger] res@[i]).0 != (#[trigger] res@[j]).0,
{
    if map@.dom().contains(key) && map@[key] == value {
        let i = choose|i: int| 0 <= i < res@.len() && (#[trigger] res@[i]).0 == key;
        assert(res@[i] == (key, value));
    }
    assert forall|i: int, j: int| 0 <= i < j < res@.len() implies (#[trigger] res@[i]).0 != (
    #[trigger] res@[j]).0 by {
        fixed_bytes::precedes_irreflexive(res@[i].0@);
    }
}

/// A map is read out in ascending order: where two of its keys first differ, the one
/// that is read out earlier has the smaller byte.
pub proof fn map_is_read_out_in_order<const N: usize, V>(
    map: OrderedMap<N, V>,
    res: &Vec<([u8; N], V)>,
    i: int,
    j: int,
    place: int,
)
    requires
        call_ensures(OrderedMap::<N, V>::entries, (&map,), res),
        0 <= i < j < res@.len(),
        0 <= place < N,
        forall|k: int| 0 <= k < place ==> res@[i].0@[k] == res@[j].0@[k],
        res@[i].0@[place] != res@[j].0@[place],
    ensures
        res@[i].0@[place] < res@[j].0@[place],
{
    assert(fixed_bytes::precedes(res@[i].0@, res@[j].0@));
    if res@[j].0@[place] < res@[i].0@[place] {
        fixed_bytes::first_difference_decides(res@[j].0@, res@[i].0@, place);
    }
}

/// A key is found if and only if the map is read out with it, and with the value
/// that is read out for it.
pub proof fn lookup_agrees_with_reading_out<const N: usize, V>(
    map: OrderedMap<N, V>,
    entries: &Vec<([u8; N], V)>,
    key: [u8; N],
    found: Option<&V>,
)
    requires
        call_ensures(OrderedMap::<N, V>::entries, (&map,), entries),
        call_ensures(OrderedMap::<N, V>::get, (&map, &key), found),
    ensures
        found is Some <==> exists|i: int|
            0 <= i < entries@.len() && (#[trigger] entries@[i]).0 == key,
        found matches Some(value) ==> entries@.contains((key, *value)),
{
    if found is Some {
        let i = choose|i: int| 0 <= i < entries@.len() && (#[trigger] entries@[i]).0 == key;
        assert(entries@[i] == (key, *found->0));
    }
}

/// A new map is read out empty.
pub proof fn new_map_is_empty<const N: usize, V>(
    map: OrderedMap<N, V>,
    entries: &Vec<([u8; N], V)>,
)
    requires
        call_ensures(OrderedMap::<N, V>::new, (), map),
        call_ensures(OrderedMap::<N, V>::entries, (&map,), entries),
    ensures
        entries@.len() == 0,
{
    if entries@.len() > 0 {
        assert(map@.dom().contains(entries@[0].0));
    }
}

/// A map keyed by byte strings of `N` bytes, read out in ascending order.
#[derive(Debug, PartialEq, Eq)]
pub struct OrderedMap<const N: usize, V> {
    entries: Vec<([u8; N], V)>,
}

impl<const N: usize, V> View for OrderedMap<N, V> {
    type V = Map<[u8; N], V>;

    closed spec fn view(&self) -> Map<[u8; N], V> {
        as_map(self.entries@)
    }
}

impl<const N: usize, V> OrderedMap<N, V> {
    #[verifier::type_invariant]
    closed spec fn well_formed(self) -> bool {
        ascending(self.entries@)
    }

    /// An empty map.
    pub fn new() -> (res: Self)
        ensures
            res@ == Map::<[u8; N], V>::empty(),
    {
        let res = OrderedMap { entries: Vec::new() };
        assert(res@ =~= Map::<[u8; N], V>::empty());
        res
    }

    /// The entries in ascending order of their keys.
    pub fn entries(&self) -> (res: &Vec<([u8; N], V)>)
        ensures
            ascending(res@),
            as_map(res@) == self@,
            forall|i: int|
                0 <= i < res@.len() ==> self@.dom().contains((#[trigger] res@[i]).0)
                    && self@[res@[i].0] == res@[i].1,
            forall|key: [u8; N]| #[trigger]
                self@.dom().contains(key) ==> exists|i: int|
                    0 <= i < res@.len() && (#[trigger] res@[i]).0 == key,
    {
        proof {
            use_type_invariant(self);
            assert forall|i: int| 0 <= i < self.entries@.len() implies self@.dom().contains(
                (#[trigger] self.entries@[i]).0,
            ) && self@[self.entries@[i].0] == self.entries@[i].1 by {
                lemma_entry(self.entries@, i);
            }
        }
        &self.entries
    }

    /// The value under `key`, if there is one.
    pub fn get(&self, key: &[u8; N]) -> (res: Option<&V>)
        ensures
            res == (if self@.dom().contains(*key) {
                Some(&self@[*key])
            } else {
                None
            }),
    {
        proof {
            use_type_invariant(self);
        }
        let (found, at) = locate(&self.entries, key);
        if found {
            proof {
                lemma_entry(self.entries@, at as int);
            }
            Some(&self.entries[at].1)
        } else {
            proof {
                lemma_not_found(self.entries@, *key, at as int);
            }
            None
        }
    }

    /// Puts `value` under `key` and returns the value that it replaces, if any.
    pub fn insert(&mut self, key: [u8; N], value: V) -> (res: Option<V>)
        ensures
            final(self)@ == old(self)@.insert(key, value),
            res == (if old(self)@.dom().contains(key) {
                Some(old(self)@[key])
            } else {
                None
            }),
    {
        proof {
            use_type_invariant(&*self);
        }
        let mut entries: Vec<([u8; N], V)> = Vec::new();
        std::mem::swap(&mut entries, &mut self.entries);
        let ghost before = entries@;
        let (found, at) = locate(&entries, &key);
        let replaced = if found {
            proof {
                lemma_entry(before, at as int);
            }
            Some(entries.remove(at).1)
        } else {
            proof {
                lemma_not_found(before, key, at as int);
            }
            None
        };
        entries.insert(at, (key, value));
        proof {
            lemma_put(before, entries@, key, value, at as int, found);
        }
        self.entries = entries;
        replaced
    }

    /// Collects entries that come in any order; of two entries with one key the
    /// later one stays.
    pub fn from_entries(list: Vec<([u8; N], V)>) -> (res: Self)
        ensures
            res@ == collected(list@),
    {
        let mut res: OrderedMap<N, V> = OrderedMap::new();
        let ghost given = list@;
        for entry in iter: list
            invariant
                iter.seq() == given,
                res@ == collected(given.take(iter.index() as int)),
        {
            proof {
                let n = iter.index() as int;
                assert(given.take(n + 1).drop_last() =~= given.take(n));
                assert(given.take(n + 1).last() == given[n]);
            }
            let (key, value) = entry;
            let _ = res.insert(key, value);
        }
        assert(given.take(given.len() as int) =~= given);
        res
    }
}

/// Where a key stands in an ascending list, or where it belongs.
fn locate<const N: usize, V>(entries: &Vec<([u8; N], V)>, key: &[u8; N]) -> (res: (bool, usize))
    requires
        ascending(entries@),
    ensures
        res.1 <= entries@.len(),
        res.0 ==> res.1 < entries@.len() && entries@[res.1 as int].0 == *key,
        forall|i: int|
            0 <= i < res.1 ==> fixed_bytes::precedes((#[trigger] entries@[i]).0@, key@),
        !res.0 ==> forall|i: int|
            res.1 <= i < entries@.len() ==> fixed_bytes::precedes(
                key@,
                (#[trigger] entries@[i]).0@,
            ),
{
    let mut low: usize = 0;
    let mut high: usize = entries.len();
    while low < high
        invariant
            low <= high <= entries@.len(),
            ascending(entries@),
            forall|i: int|
                0 <= i < low ==> fixed_bytes::precedes((#[trigger] entries@[i]).0@, key@),
            forall|i: int|
                high <= i < entries@.len() ==> fixed_bytes::precedes(
                    key@,
                    (#[trigger] entries@[i]).0@,
                ),
        decreases high - low,
    {
        let middle: usize = low + (high - low) / 2;
        match position(&entries[middle].0, key) {
            Position::Before => {
                proof {
                    assert forall|i: int| 0 <= i < middle + 1 implies fixed_bytes::precedes(
                        (#[trigger] entries@[i]).0@,
                        key@,
                    ) by {
                        if i < middle {
                            fixed_bytes::precedes_transitive(
                                entries@[i].0@,
                                entries@[middle as int].0@,
                                key@,
                            );
                        }
                    }
                }
                low = middle + 1;
            },
            Position::Same => {
                return (true, middle);
            },
            Position::After => {
                proof {
                    assert forall|i: int|
                        middle <= i < entries@.len() implies fixed_bytes::precedes(
                        key@,
                        (#[trigger] entries@[i]).0@,
                    ) by {
                        if middle < i {
                            fixed_bytes::precedes_transitive(
                                key@,
                                entries@[middle as int].0@,
                                entries@[i].0@,
                            );
                        }
                    }
                }
                high = middle;
            },
        }
    }
    (false, low)
}

/// A key that lies between two neighbours of an ascending list is not in it.
proof fn lemma_not_found<const N: usize, V>(entries: Seq<([u8; N], V)>, key: [u8; N], at: int)
    requires
        0 <= at <= entries.len(),
        forall|i: int|
            0 <= i < at ==> fixed_bytes::precedes((#[trigger] entries[i]).0@, key@),
        forall|i: int|
            at <= i < entries.len() ==> fixed_bytes::precedes(
                key@,
                (#[trigger] entries[i]).0@,
            ),
    ensures
        !as_map(entries).dom().contains(key),
{
    fixed_bytes::precedes_irreflexive(key@);
}

/// Putting a key in its place keeps the order and changes the map at that key only.
proof fn lemma_put<const N: usize, V>(
    before: Seq<([u8; N], V)>,
    after: Seq<([u8; N], V)>,
    key: [u8; N],
    value: V,
    at: int,
    found: bool,
)
    requires
        ascending(before),
        0 <= at <= before.len(),
        found ==> at < before.len() && before[at].0 == key && after == before.remove(at).insert(
            at,
            (key, value),
        ),
        !found ==> after == before.insert(at, (key, value)),
        forall|i: int|
            0 <= i < at ==> fixed_bytes::precedes((#[trigger] before[i]).0@, key@),
        !found ==> forall|i: int|
            at <= i < before.len() ==> fixed_bytes::precedes(
                key@,
                (#[trigger] before[i]).0@,
            ),
    ensures
        ascending(after),
        as_map(after) == as_map(before).insert(key, value),
{
    let shift: int = if found {
        0
    } else {
        1
    };
    assert(after.len() == before.len() + shift);
    assert(forall|i: int| 0 <= i < at ==> #[trigger] after[i] == before[i]);
    assert(after[at] == (key, value));
    assert(forall|i: int| at < i < after.len() ==> #[trigger] after[i] == before[i - shift]);
    assert(ascending(after));
    assert forall|k: [u8; N]| #[trigger]
        as_map(before).insert(key, value).dom().contains(k) implies as_map(after).dom().contains(k)
        && as_map(after)[k] == as_map(before).insert(key, value)[k] by {
        lemma_entry(after, at);
        if k != key {
            let i = choose|i: int| 0 <= i < before.len() && (#[trigger] before[i]).0 == k;
            lemma_entry(before, i);
            let j: int = if i < at {
                i
            } else {
                i + shift
            };
            assert(after[j] == before[i]);
            lemma_entry(after, j);
        }
    }
    assert forall|k: [u8; N]| #[trigger] as_map(after).dom().contains(k) implies as_map(
        before,
    ).insert(key, value).dom().contains(k) by {
        let i = choose|i: int| 0 <= i < after.len() && (#[trigger] after[i]).0 == k;
        if i < at {
            assert(before[i].0 == k);
        } else if at < i {
            assert(before[i - shift].0 == k);
        }
    }
    assert(as_map(after) =~= as_map(before).insert(key, value));
}

} // verus!
