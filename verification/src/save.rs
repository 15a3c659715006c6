//! The saved game: for each kind of object (keyed by its class name) the
//! records (JSON texts) of the objects of that kind. Saving adds records;
//! loading merges a saved file into the store, and each object then takes
//! the records of its kind.
//!
//! The records of a kind form a set: a record is kept once however often it
//! is added. They are kept as a list without repetitions.
use vstd::prelude::*;
use dashmap::DashMap;

verus! {

#[verifier::external_type_specification]
#[verifier::external_body]
#[verifier::reject_recursive_types(K)]
#[verifier::reject_recursive_types(V)]
#[verifier::reject_recursive_types(S)]
pub struct ExDashMap<K, V, S>(DashMap<K, V, S>);

/// What a store holds: for each class name, the records of that class.
pub uninterp spec fn records_of(m: DashMap<String, Vec<String>>) -> Map<Seq<char>, Seq<Seq<char>>>;

/// The store that a saved text describes, if the text is a JSON object whose
/// values are arrays of strings.
pub uninterp spec fn parsed_records(text: Seq<char>) -> Option<Map<Seq<char>, Seq<Seq<char>>>>;

/// The store of no record at all.
pub open spec fn no_records() -> Map<Seq<char>, Seq<Seq<char>>> {
    Map::empty()
}

/// An empty store.
///
/// Calls `dashmap::DashMap::new`, which creates a map with no entry.
#[verifier::external_body]
fn records_new() -> (r: DashMap<String, Vec<String>>)
    ensures
        records_of(r) == no_records(),
{
    DashMap::new()
}

/// Sets the records of `key` to `value`, replacing any earlier ones.
///
/// Calls `dashmap::DashMap::insert`, which puts `value` under `key` (the
/// earlier value, which it hands back, is dropped). The map is taken by
/// `&mut` here although `insert` takes `&self`.
#[verifier::external_body]
fn records_insert(m: &mut DashMap<String, Vec<String>>, key: String, value: Vec<String>)
    ensures
        records_of(*final(m)) == records_of(*old(m)).insert(key@, value.deep_view()),
{
    m.insert(key, value);
}

/// Takes the records of `key` out of the store.
///
/// Calls `dashmap::DashMap::remove`, which removes the entry of `key` and
/// hands back its key and value when there is one; the value is kept. The
/// map is taken by `&mut` here although `remove` takes `&self`.
#[verifier::external_body]
fn records_remove(m: &mut DashMap<String, Vec<String>>, key: &String) -> (r: Option<Vec<String>>)
    ensures
        r.is_some() == records_of(*old(m)).dom().contains(key@),
        r matches Some(v) ==> v.deep_view() == records_of(*old(m))[key@],
        records_of(*final(m)) == records_of(*old(m)).remove(key@),
{
    m.remove(key).map(|entry| entry.1)
}

/// Whether the store holds no class at all.
///
/// Calls `dashmap::DashMap::is_empty`, which says whether the map has no entry.
#[verifier::external_body]
fn records_is_empty(m: &DashMap<String, Vec<String>>) -> (r: bool)
    ensures
        r == (records_of(*m) == no_records()),
{
    m.is_empty()
}

/// The entries of a store, in no particular order.
///
/// Calls `IntoIterator::into_iter` of `dashmap::DashMap`, which hands out
/// every entry once, and collects them. Every key of the store comes once,
/// with its records; the order depends on the map's hashing and is not stated.
#[verifier::external_body]
fn records_entries(m: DashMap<String, Vec<String>>) -> (r: Vec<(String, Vec<String>)>)
    ensures
        forall|i: int, j: int|
            0 <= i < j < r@.len() ==> (#[trigger] r@[i]).0@ != (#[trigger] r@[j]).0@,
        forall|i: int|
            0 <= i < r@.len() ==> records_of(m).dom().contains((#[trigger] r@[i]).0@)
                && records_of(m)[r@[i].0@] == r@[i].1.deep_view(),
        forall|k: Seq<char>|
            records_of(m).dom().contains(k) ==> exists|i: int|
                0 <= i < r@.len() && (#[trigger] r@[i]).0@ == k,
{
    m.into_iter().collect()
}

/// Reads a saved text.
///
/// Calls `serde_json::from_str` into a `DashMap<String, Vec<String>>`; a
/// text that is not such a JSON object is refused. What it reads is named
/// [`parsed_records`] (a later duplicate key replaces an earlier one).
#[verifier::external_body]
fn records_parse(text: &str) -> (r: Option<DashMap<String, Vec<String>>>)
    ensures
        r.is_some() == parsed_records(text@).is_some(),
        r matches Some(m) ==> records_of(m) == parsed_records(text@).unwrap(),
{
    serde_json::from_str::<DashMap<String, Vec<String>>>(text).ok()
}

/// Writes a store as pretty-printed JSON.
///
/// Calls `serde_json::to_string_pretty`, which cannot fail on a map of
/// strings to lists of strings, and whose output `serde_json::from_str`
/// reads back into the same map: that is all that is stated of the text.
/// The order of its keys follows the map's hashing, which differs from run
/// to run, and is not stated.
#[verifier::external_body]
fn records_render(m: &DashMap<String, Vec<String>>) -> (r: String)
    ensures
        parsed_records(r@) == Some(records_of(*m)),
{
    serde_json::to_string_pretty(m).unwrap()
}

/// `s` without its later repetitions (each record kept at its first place).
pub open spec fn dedup(s: Seq<Seq<char>>) -> Seq<Seq<char>>
    decreases s.len(),
{
    if s.len() == 0 {
        s
    } else {
        let d = dedup(s.drop_last());
        if d.contains(s.last()) {
            d
        } else {
            d.push(s.last())
        }
    }
}

/// The records of a class after adding `data`: unchanged when it is there.
pub open spec fn with_record(records: Seq<Seq<char>>, data: Seq<char>) -> Seq<Seq<char>> {
    if records.contains(data) {
        records
    } else {
        records.push(data)
    }
}

/// The store after adding the record `data` to those of `class_name`.
pub open spec fn recorded(
    store: Map<Seq<char>, Seq<Seq<char>>>,
    class_name: Seq<char>,
    data: Seq<char>,
) -> Map<Seq<char>, Seq<Seq<char>>> {
    store.insert(
        class_name,
        if store.dom().contains(class_name) {
            with_record(store[class_name], data)
        } else {
            seq![data]
        },
    )
}

/// Whether `s` holds `x`.
fn contains_record(s: &Vec<String>, x: &String) -> (r: bool)
    ensures
        r == s.deep_view().contains(x@),
{
    let mut i: usize = 0;
    while i < s.len()
        invariant
            i <= s@.len(),
            forall|j: int| 0 <= j < i ==> s.deep_view()[j] != x@,
        decreases s@.len() - i,
    {
        if s[i] == *x {
            assert(s.deep_view()[i as int] == x@);
            return true;
        }
        i = i + 1;
    }
    false
}

/// `s` without its later repetitions.
fn dedup_records(s: Vec<String>) -> (r: Vec<String>)
    ensures
        r.deep_view() == dedup(s.deep_view()),
{
    let mut r: Vec<String> = Vec::new();
    let mut i: usize = 0;
    while i < s.len()
        invariant
            i <= s@.len(),
            r.deep_view() == dedup(s.deep_view().take(i as int)),
        decreases s@.len() - i,
    {
        let x = s[i].clone();
        assert(s.deep_view().take(i + 1).drop_last() =~= s.deep_view().take(i as int));
        if !contains_record(&r, &x) {
            r.push(x);
            assert(r.deep_view() =~= dedup(s.deep_view().take(i as int)).push(x@));
        }
        i = i + 1;
    }
    assert(s.deep_view().take(s@.len() as int) =~= s.deep_view());
    r
}

/// The saved-game store.
pub struct RustSaveLoader {
    pub records: DashMap<String, Vec<String>>,
}

impl View for RustSaveLoader {
    type V = Map<Seq<char>, Seq<Seq<char>>>;

    open spec fn view(&self) -> Map<Seq<char>, Seq<Seq<char>>> {
        records_of(self.records)
    }
}

impl RustSaveLoader {
    /// An empty store.
    pub fn new() -> (s: Self)
        ensures
            s@ == Map::<Seq<char>, Seq<Seq<char>>>::empty(),
    {
        RustSaveLoader { records: records_new() }
    }

    /// Whether the store holds nothing.
    pub fn is_empty(&self) -> (r: bool)
        ensures
            r == (self@ == Map::<Seq<char>, Seq<Seq<char>>>::empty()),
    {
        records_is_empty(&self.records)
    }

    /// Adds the record `data` to those of `class_name` (the saving of
    /// objects of which there may be many).
    pub fn record(&mut self, class_name: String, data: String)
        ensures
            final(self)@ == recorded(old(self)@, class_name@, data@),
    {
        let ghost before = self@;
        let taken = records_remove(&mut self.records, &class_name);
        let records = match taken {
            Some(mut v) => {
                let ghost prior = v.deep_view();
                if !contains_record(&v, &data) {
                    v.push(data);
                    assert(v.deep_view() =~= prior.push(data@));
                }
                assert(v.deep_view() == with_record(prior, data@));
                v
            },
            None => {
                let mut v: Vec<String> = Vec::new();
                v.push(data);
                assert(v.deep_view() =~= seq![data@]);
                v
            },
        };
        records_insert(&mut self.records, class_name, records);
        assert(self@ =~= recorded(before, class_name@, data@));
    }

    /// Sets the records of `class_name` to `data` alone (the saving of an
    /// object of which there is one: the player, the level).
    pub fn record_single(&mut self, class_name: String, data: String)
        ensures
            final(self)@ == old(self)@.insert(class_name@, seq![data@]),
    {
        let mut v: Vec<String> = Vec::new();
        v.push(data);
        assert(v.deep_view() =~= seq![data@]);
        records_insert(&mut self.records, class_name, v);
    }

    /// Takes the records of `class_name` out of the store (an object that
    /// loads itself from them).
    pub fn take(&mut self, class_name: &String) -> (r: Option<Vec<String>>)
        ensures
            r.is_some() == old(self)@.dom().contains(class_name@),
            r matches Some(v) ==> v.deep_view() == old(self)@[class_name@],
            final(self)@ == old(self)@.remove(class_name@),
    {
        records_remove(&mut self.records, class_name)
    }

    /// Merges a saved text into the store: each class it holds takes the
    /// records of the text (without repetitions), replacing its own. The
    /// result says whether the objects are to load themselves: the text was
    /// read and the store is not empty. A text that cannot be read leaves the
    /// store as it was.
    pub fn load_game(&mut self, text: &str) -> (r: bool)
        ensures
            parsed_records(text@).is_none() ==> !r && final(self)@ == old(self)@,
            parsed_records(text@) matches Some(p) ==> ({
                &&& final(self)@ == old(self)@.union_prefer_right(
                    p.map_values(|records: Seq<Seq<char>>| dedup(records)),
                )
                &&& r == (final(self)@ != Map::<Seq<char>, Seq<Seq<char>>>::empty())
            }),
    {
        match records_parse(text) {
            None => false,
            Some(m) => self.merge(m),
        }
    }

    /// Merges a store that was read from a saved text into this one: each
    /// class of `loaded` takes its records there (without repetitions),
    /// replacing its own here. The result says whether the store is now not
    /// empty.
    pub fn merge(&mut self, loaded: DashMap<String, Vec<String>>) -> (r: bool)
        ensures
            final(self)@ == old(self)@.union_prefer_right(
                records_of(loaded).map_values(|records: Seq<Seq<char>>| dedup(records)),
            ),
            r == (final(self)@ != Map::<Seq<char>, Seq<Seq<char>>>::empty()),
    {
        let ghost p = records_of(loaded);
        let ghost before = self@;
        let entries = records_entries(loaded);
        let mut i: usize = 0;
        while i < entries.len()
            invariant
                i <= entries@.len(),
                forall|a: int, b: int|
                    0 <= a < b < entries@.len() ==> (#[trigger] entries@[a]).0@ != (
                    #[trigger] entries@[b]).0@,
                forall|a: int|
                    0 <= a < entries@.len() ==> p.dom().contains(
                        (#[trigger] entries@[a]).0@,
                    ) && p[entries@[a].0@] == entries@[a].1.deep_view(),
                forall|k: Seq<char>|
                    p.dom().contains(k) ==> exists|a: int|
                        0 <= a < entries@.len() && (#[trigger] entries@[a]).0@ == k,
                forall|k: Seq<char>|
                    #[trigger] self@.dom().contains(k) <==> before.dom().contains(k)
                        || exists|a: int| 0 <= a < i && (#[trigger] entries@[a]).0@ == k,
                forall|k: Seq<char>|
                    #![trigger self@[k]]
                    self@.dom().contains(k) ==> self@[k] == if exists|a: int|
                        0 <= a < i && (#[trigger] entries@[a]).0@ == k {
                        dedup(p[k])
                    } else {
                        before[k]
                    },
            decreases entries@.len() - i,
        {
            let key = entries[i].0.clone();
            let records = dedup_records(entries[i].1.clone());
            let ghost old_view = self@;
            records_insert(&mut self.records, key, records);
            assert forall|k: Seq<char>|
                #[trigger] self@.dom().contains(k) <==> before.dom().contains(k)
                    || exists|a: int| 0 <= a < i + 1 && (#[trigger] entries@[a]).0@ == k by {
                if k == entries@[i as int].0@ {
                } else if exists|a: int| 0 <= a < i + 1 && (#[trigger] entries@[a]).0@ == k {
                    let a = choose|a: int| 0 <= a < i + 1 && (#[trigger] entries@[a]).0@ == k;
                    assert(a < i);
                }
            }
            assert forall|k: Seq<char>|
                #![trigger self@[k]]
                self@.dom().contains(k) implies self@[k] == if exists|a: int|
                    0 <= a < i + 1 && (#[trigger] entries@[a]).0@ == k {
                    dedup(p[k])
                } else {
                    before[k]
                } by {
                if k == entries@[i as int].0@ {
                    assert(exists|a: int| 0 <= a < i + 1 && (#[trigger] entries@[a]).0@ == k);
                } else {
                    if exists|a: int| 0 <= a < i + 1 && (#[trigger] entries@[a]).0@ == k {
                        let a = choose|a: int|
                            0 <= a < i + 1 && (#[trigger] entries@[a]).0@ == k;
                        assert(a < i);
                    }
                }
            }
            i = i + 1;
        }
        let ghost target = before.union_prefer_right(
            p.map_values(|records: Seq<Seq<char>>| dedup(records)),
        );
        assert forall|k: Seq<char>| #[trigger] self@.dom().contains(k) <==> target.dom().contains(k) by {
            if p.dom().contains(k) {
                let a = choose|a: int| 0 <= a < entries@.len() && (#[trigger] entries@[a]).0@ == k;
            }
        }
        assert forall|k: Seq<char>| #[trigger] self@.dom().contains(k) implies self@[k] == target[k] by {
            if p.dom().contains(k) {
                let a = choose|a: int| 0 <= a < entries@.len() && (#[trigger] entries@[a]).0@ == k;
            }
        }
        assert(self@ =~= target);
        !self.is_empty()
    }

    /// The store as a pretty-printed JSON text, for the save file; reading
    /// the text gives the store back.
    pub fn save_game(&self) -> (r: String)
        ensures
            parsed_records(r@) == Some(self@),
    {
        records_render(&self.records)
    }
}

/// Adding a record twice is adding it once.
pub proof fn law_record_idempotent(
    store: Map<Seq<char>, Seq<Seq<char>>>,
    class_name: Seq<char>,
    data: Seq<char>,
)
    ensures
        recorded(recorded(store, class_name, data), class_name, data) == recorded(
            store,
            class_name,
            data,
        ),
{
    law_recorded_is_taken(store, class_name, data);
    let once = recorded(store, class_name, data);
    assert(recorded(once, class_name, data) =~= once);
}

/// A record that was added is among those that its class takes back.
pub proof fn law_recorded_is_taken(
    store: Map<Seq<char>, Seq<Seq<char>>>,
    class_name: Seq<char>,
    data: Seq<char>,
)
    ensures
        recorded(store, class_name, data).dom().contains(class_name),
        recorded(store, class_name, data)[class_name].contains(data),
{
    let r = recorded(store, class_name, data)[class_name];
    if store.dom().contains(class_name) && !store[class_name].contains(data) {
        assert(r[r.len() - 1] == data);
    } else if !store.dom().contains(class_name) {
        assert(r[0] == data);
    }
}

/// After a saved text is loaded, a class that the text holds takes back the
/// text's records of that class (each once).
pub proof fn law_load_then_take(
    store: Map<Seq<char>, Seq<Seq<char>>>,
    text: Seq<char>,
    class_name: Seq<char>,
)
    requires
        parsed_records(text) is Some,
        parsed_records(text).unwrap().dom().contains(class_name),
    ensures
        ({
            let p = parsed_records(text).unwrap();
            let loaded = store.union_prefer_right(
                p.map_values(|records: Seq<Seq<char>>| dedup(records)),
            );
            loaded.dom().contains(class_name) && loaded[class_name] == dedup(p[class_name])
        }),
{
}

/// Whether no class of the store holds a record twice.
pub open spec fn no_repeats(store: Map<Seq<char>, Seq<Seq<char>>>) -> bool {
    forall|k: Seq<char>| #[trigger] store.dom().contains(k) ==> store[k].no_duplicates()
}

proof fn lemma_dedup(s: Seq<Seq<char>>)
    ensures
        dedup(s).no_duplicates(),
        forall|x: Seq<char>| dedup(s).contains(x) <==> s.contains(x),
        s.no_duplicates() ==> dedup(s) == s,
    decreases s.len(),
{
    if s.len() > 0 {
        let init = s.drop_last();
        lemma_dedup(init);
        let d = dedup(init);
        assert forall|x: Seq<char>| s.contains(x) <==> init.contains(x) || x == s.last() by {
            if s.contains(x) {
                let i = choose|i: int| 0 <= i < s.len() && s[i] == x;
                if i < s.len() - 1 {
                    assert(init[i] == x);
                }
            }
            if init.contains(x) {
                let i = choose|i: int| 0 <= i < init.len() && init[i] == x;
                assert(s[i] == x);
            }
            if x == s.last() {
                assert(s[s.len() - 1] == x);
            }
        }
        if !d.contains(s.last()) {
            let e = d.push(s.last());
            assert forall|x: Seq<char>| e.contains(x) <==> d.contains(x) || x == s.last() by {
                if e.contains(x) {
                    let i = choose|i: int| 0 <= i < e.len() && e[i] == x;
                    if i < d.len() {
                        assert(d[i] == x);
                    }
                }
                if d.contains(x) {
                    let i = choose|i: int| 0 <= i < d.len() && d[i] == x;
                    assert(e[i] == x);
                }
                if x == s.last() {
                    assert(e[d.len() as int] == x);
                }
            }
            assert forall|i: int, j: int| 0 <= i < e.len() && 0 <= j < e.len() && i != j implies e[i]
                != e[j] by {
                if i < d.len() && j < d.len() {
                } else if i == d.len() {
                    assert(d[j] == e[j]);
                } else {
                    assert(d[i] == e[i]);
                }
            }
        }
        if s.no_duplicates() {
            assert(init.no_duplicates());
            assert(!init.contains(s.last())) by {
                if init.contains(s.last()) {
                    let i = choose|i: int| 0 <= i < init.len() && init[i] == s.last();
                    assert(s[i] == s[s.len() - 1]);
                }
            }
            assert(init.push(s.last()) =~= s);
        }
    }
}

/// Adding a record never makes a class hold a record twice.
pub proof fn law_record_keeps_records_distinct(
    store: Map<Seq<char>, Seq<Seq<char>>>,
    class_name: Seq<char>,
    data: Seq<char>,
)
    requires
        no_repeats(store),
    ensures
        no_repeats(recorded(store, class_name, data)),
{
    let after = recorded(store, class_name, data);
    assert forall|k: Seq<char>| #[trigger] after.dom().contains(k) implies after[k].no_duplicates() by {
        if k == class_name && store.dom().contains(class_name) && !store[class_name].contains(data) {
            let old_records = store[class_name];
            let e = old_records.push(data);
            assert(old_records.no_duplicates());
            assert forall|i: int, j: int| 0 <= i < e.len() && 0 <= j < e.len() && i != j implies e[i]
                != e[j] by {
                if i == old_records.len() {
                    assert(old_records[j] == e[j]);
                } else if j == old_records.len() {
                    assert(old_records[i] == e[i]);
                }
            }
        } else if !store.dom().contains(k) {
        } else if k != class_name {
            assert(after[k] == store[k]);
        }
    }
}

/// Loading a saved text never makes a class hold a record twice.
pub proof fn law_load_keeps_records_distinct(
    store: Map<Seq<char>, Seq<Seq<char>>>,
    loaded: Map<Seq<char>, Seq<Seq<char>>>,
)
    requires
        no_repeats(store),
    ensures
        no_repeats(store.union_prefer_right(loaded.map_values(|records: Seq<Seq<char>>| dedup(records)))),
{
    let after = store.union_prefer_right(loaded.map_values(|records: Seq<Seq<char>>| dedup(records)));
    assert forall|k: Seq<char>| #[trigger] after.dom().contains(k) implies after[k].no_duplicates() by {
        if loaded.dom().contains(k) {
            lemma_dedup(loaded[k]);
        }
    }
}

/// A store whose classes hold no record twice comes back whole when the
/// text that it was saved to is loaded into an empty store.
pub proof fn law_save_then_load_restores(store: Map<Seq<char>, Seq<Seq<char>>>, text: Seq<char>)
    requires
        no_repeats(store),
        parsed_records(text) == Some(store),
    ensures
        ({
            let p = parsed_records(text).unwrap();
            no_records().union_prefer_right(p.map_values(|records: Seq<Seq<char>>| dedup(records)))
                == store
        }),
{
    let restored = no_records().union_prefer_right(
        store.map_values(|records: Seq<Seq<char>>| dedup(records)),
    );
    assert forall|k: Seq<char>| #[trigger] store.dom().contains(k) implies restored[k] == store[k] by {
        lemma_dedup(store[k]);
    }
    assert(restored =~= store);
}

} // verus!
