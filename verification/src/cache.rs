//! Caches whose entries are good for a fixed time after they were written.
//!
//! The caches read no clock: the caller passes the time of the call, in
//! milliseconds of any clock that does not run backwards.

use vstd::prelude::*;

verus! {

/// How long an entry is good for, in milliseconds: five minutes.
pub const TTL_MS: u64 = 300_000;

/// Whether an entry captured at `captured_at` is still good at `now`: less
/// than the time to live has passed.
pub open spec fn is_fresh(captured_at: u64, now: u64) -> bool {
    now - captured_at < TTL_MS
}

/// Whether an entry captured at `captured_at` is still good at `now`.
pub fn fresh(captured_at: u64, now: u64) -> (good: bool)
    ensures
        good == is_fresh(captured_at, now),
{
    now < captured_at || now - captured_at < TTL_MS
}

/// What a read at `now` finds in an entry: its value while it is fresh.
pub open spec fn hit<T>(entry: Option<(u64, T)>, now: u64) -> Option<T> {
    match entry {
        Some((captured_at, value)) => if is_fresh(captured_at, now) {
            Some(value)
        } else {
            None
        },
        None => None,
    }
}

/// A cache of one value.
pub struct TtlCache<T> {
    entry: Option<(u64, T)>,
}

impl<T> View for TtlCache<T> {
    type V = Option<(u64, T)>;

    closed spec fn view(&self) -> Option<(u64, T)> {
        self.entry
    }
}

impl<T> TtlCache<T> {
    /// A cache that holds nothing.
    pub fn new() -> (cache: TtlCache<T>)
        ensures
            cache@ is None,
    {
        TtlCache { entry: None }
    }

    /// The value, if one is held and still fresh at `now`. The cache is left
    /// as it is either way.
    pub fn get(&self, now: u64) -> (value: Option<&T>)
        ensures
            match value {
                Some(v) => hit(self@, now) == Some(*v),
                None => hit(self@, now) is None,
            },
    {
        match &self.entry {
            Some(entry) => {
                if fresh(entry.0, now) {
                    Some(&entry.1)
                } else {
                    None
                }
            },
            None => None,
        }
    }

    /// Puts `value` in place of whatever is held, captured at `now`.
    pub fn put(&mut self, now: u64, value: T)
        ensures
            final(self)@ == Some((now, value)),
    {
        self.entry = Some((now, value));
    }
}

/// The table that a list of entries stands for: each key with the time and
/// value of its entry.
pub open spec fn table<T>(entries: Seq<(String, u64, T)>) -> Map<Seq<char>, (u64, T)>
    decreases entries.len(),
{
    if entries.len() == 0 {
        Map::empty()
    } else {
        table(entries.drop_last()).insert(
            entries.last().0@,
            (entries.last().1, entries.last().2),
        )
    }
}

/// Whether no two entries have the same key.
pub open spec fn distinct_keys<T>(entries: Seq<(String, u64, T)>) -> bool {
    forall|i: int, j: int|
        0 <= i < j < entries.len() ==> (#[trigger] entries[i]).0@ != (#[trigger] entries[j]).0@
}

/// Each entry of a list with distinct keys is what the table holds under
/// its key.
pub proof fn lemma_table_holds<T>(entries: Seq<(String, u64, T)>, i: int)
    requires
        distinct_keys(entries),
        0 <= i < entries.len(),
    ensures
        table(entries).contains_key(entries[i].0@),
        table(entries)[entries[i].0@] == (entries[i].1, entries[i].2),
    decreases entries.len(),
{
    let rest = entries.drop_last();
    if i < entries.len() - 1 {
        assert(distinct_keys(rest));
        lemma_table_holds(rest, i);
    }
}

/// A key that no entry has is not in the table.
pub proof fn lemma_table_lacks<T>(entries: Seq<(String, u64, T)>, key: Seq<char>)
    requires
        forall|i: int| 0 <= i < entries.len() ==> (#[trigger] entries[i]).0@ != key,
    ensures
        !table(entries).contains_key(key),
    decreases entries.len(),
{
    if entries.len() > 0 {
        let rest = entries.drop_last();
        assert forall|i: int| 0 <= i < rest.len() implies (#[trigger] rest[i]).0@ != key by {}
        lemma_table_lacks(rest, key);
    }
}

/// Writing over the entry of a key changes the table under that key alone.
pub proof fn lemma_table_update<T>(entries: Seq<(String, u64, T)>, i: int, entry: (String, u64, T))
    requires
        distinct_keys(entries),
        0 <= i < entries.len(),
        entry.0@ == entries[i].0@,
    ensures
        table(entries.update(i, entry)) == table(entries).insert(entry.0@, (entry.1, entry.2)),
    decreases entries.len(),
{
    let updated = entries.update(i, entry);
    let rest = entries.drop_last();
    if i == entries.len() - 1 {
        assert(updated.drop_last() =~= rest);
    } else {
        assert(updated.drop_last() =~= rest.update(i, entry));
        assert(distinct_keys(rest));
        lemma_table_update(rest, i, entry);
    }
}

/// A cache of one value for each key. Keys are never taken out: an entry
/// stays until it is written over.
pub struct KeyedCache<T> {
    entries: Vec<(String, u64, T)>,
}

impl<T> View for KeyedCache<T> {
    type V = Map<Seq<char>, (u64, T)>;

    closed spec fn view(&self) -> Map<Seq<char>, (u64, T)> {
        table(self.entries@)
    }
}

/// What a read at `now` finds under `key`: the value of the entry while it
/// is fresh.
pub open spec fn keyed_hit<T>(entries: Map<Seq<char>, (u64, T)>, key: Seq<char>, now: u64)
    -> Option<T> {
    if entries.contains_key(key) {
        hit(Some(entries[key]), now)
    } else {
        None
    }
}

impl<T> KeyedCache<T> {
    #[verifier::type_invariant]
    spec fn keys_are_distinct(self) -> bool {
        distinct_keys(self.entries@)
    }

    /// A cache that holds nothing.
    pub fn new() -> (cache: KeyedCache<T>)
        ensures
            cache@ == Map::<Seq<char>, (u64, T)>::empty(),
    {
        KeyedCache { entries: Vec::new() }
    }

    fn position(&self, key: &String) -> (found: Option<usize>)
        ensures
            match found {
                Some(i) => i < self.entries@.len() && self.entries@[i as int].0@ == key@,
                None => forall|i: int|
                    0 <= i < self.entries@.len() ==> (#[trigger] self.entries@[i]).0@ != key@,
            },
    {
        let mut i: usize = 0;
        while i < self.entries.len()
            invariant
                i <= self.entries@.len(),
                forall|k: int| 0 <= k < i ==> (#[trigger] self.entries@[k]).0@ != key@,
            decreases self.entries@.len() - i,
        {
            if self.entries[i].0 == *key {
                return Some(i);
            }
            i += 1;
        }
        None
    }

    /// The value under `key`, if one is held and still fresh at `now`. The
    /// cache is left as it is either way: a miss takes nothing out.
    pub fn get(&self, key: &str, now: u64) -> (value: Option<&T>)
        ensures
            match value {
                Some(v) => keyed_hit(self@, key@, now) == Some(*v),
                None => keyed_hit(self@, key@, now) is None,
            },
    {
        proof {
            use_type_invariant(self);
        }
        let wanted = String::from_str(key);
        match self.position(&wanted) {
            Some(i) => {
                proof {
                    lemma_table_holds(self.entries@, i as int);
                }
                if fresh(self.entries[i].1, now) {
                    Some(&self.entries[i].2)
                } else {
                    None
                }
            },
            None => {
                proof {
                    lemma_table_lacks(self.entries@, key@);
                }
                None
            },
        }
    }

    /// Puts `value` under `key`, captured at `now`, in place of whatever is
    /// held under that key. The entries of other keys stay as they are.
    pub fn put(&mut self, key: String, now: u64, value: T)
        ensures
            final(self)@ == old(self)@.insert(key@, (now, value)),
    {
        proof {
            use_type_invariant(&*self);
        }
        let found = self.position(&key);
        let ghost before = self.entries@;
        let mut entries: Vec<(String, u64, T)> = Vec::new();
        core::mem::swap(&mut self.entries, &mut entries);
        let entry = (key, now, value);
        match found {
            Some(i) => {
                entries.set(i, entry);
                proof {
                    lemma_table_update(before, i as int, entry);
                    assert(distinct_keys(entries@));
                }
            },
            None => {
                entries.push(entry);
                proof {
                    assert(entries@.drop_last() =~= before);
                    assert(distinct_keys(entries@));
                }
            },
        }
        self.entries = entries;
    }
}

/// An entry written at `written_at` and read `elapsed` milliseconds later is
/// a hit if and only if `elapsed` is less than the time to live.
pub proof fn lemma_freshness_window<T>(written_at: u64, elapsed: nat, value: T)
    requires
        written_at + elapsed <= u64::MAX,
    ensures
        hit(Some((written_at, value)), (written_at + elapsed) as u64) == if elapsed < TTL_MS {
            Some(value)
        } else {
            None
        },
{
}

/// A write under one key is what a read under that key finds while it is
/// fresh, and leaves what is found under every other key as it was.
pub proof fn lemma_write_touches_one_key<T>(
    entries: Map<Seq<char>, (u64, T)>,
    key: Seq<char>,
    written_at: u64,
    value: T,
    other: Seq<char>,
    now: u64,
)
    requires
        other != key,
    ensures
        keyed_hit(entries.insert(key, (written_at, value)), key, now) == hit(
            Some((written_at, value)),
            now,
        ),
        keyed_hit(entries.insert(key, (written_at, value)), other, now) == keyed_hit(
            entries,
            other,
            now,
        ),
{
}

/// The texts joined, with `separator` between each two.
pub open spec fn joined_with(texts: Seq<Seq<char>>, separator: Seq<char>) -> Seq<char>
    decreases texts.len(),
{
    if texts.len() == 0 {
        Seq::empty()
    } else if texts.len() == 1 {
        texts[0]
    } else {
        joined_with(texts.drop_last(), separator) + separator + texts.last()
    }
}

/// The views of a list of texts.
pub open spec fn texts_view(texts: Seq<String>) -> Seq<Seq<char>> {
    Seq::new(texts.len(), |i: int| texts[i]@)
}

/// The key under which the time slots of an order are cached: the route
/// name, a hyphen, and the product ids joined by `|`.
pub open spec fn slot_key(route_name: Seq<char>, product_ids: Seq<Seq<char>>) -> Seq<char> {
    route_name + "-"@ + joined_with(product_ids, "|"@)
}

/// The key under which the time slots of an order are cached.
pub fn timeslot_key(route_name: &str, product_ids: &Vec<String>) -> (key: String)
    ensures
        key@ == slot_key(route_name@, texts_view(product_ids@)),
{
    let mut key = String::from_str(route_name);
    key.append("-");
    let ghost ids = texts_view(product_ids@);
    let mut i: usize = 0;
    while i < product_ids.len()
        invariant
            i <= product_ids@.len(),
            ids == texts_view(product_ids@),
            key@ == route_name@ + "-"@ + joined_with(ids.subrange(0, i as int), "|"@),
        decreases product_ids@.len() - i,
    {
        proof {
            assert(ids.subrange(0, i + 1).drop_last() =~= ids.subrange(0, i as int));
        }
        if i > 0 {
            key.append("|");
        }
        key.append(product_ids[i].as_str());
        i += 1;
    }
    proof {
        assert(ids.subrange(0, product_ids@.len() as int) =~= ids);
    }
    key
}

} // verus!
