//! Immutable tables with lookup by a perfect hash function, as the main crate sees
//! them once the generated expressions are imported.
use vstd::prelude::*;
use phf::Map as PhfMap;
use phf::OrderedMap as PhfOrderedMap;
use phf::OrderedSet as PhfOrderedSet;
use phf::Set as PhfSet;

verus! {

#[verifier::external_type_specification]
#[verifier::reject_recursive_types(K)]
#[verifier::reject_recursive_types(V)]
pub struct ExPhfMap<K: 'static, V: 'static>(PhfMap<K, V>);

#[verifier::external_type_specification]
#[verifier::reject_recursive_types(K)]
#[verifier::reject_recursive_types(V)]
pub struct ExPhfOrderedMap<K: 'static, V: 'static>(PhfOrderedMap<K, V>);

#[verifier::external_type_specification]
#[verifier::reject_recursive_types(T)]
pub struct ExPhfSet<T: 'static>(PhfSet<T>);

#[verifier::external_type_specification]
#[verifier::reject_recursive_types(T)]
pub struct ExPhfOrderedSet<T: 'static>(PhfOrderedSet<T>);

/// A lookup in the table cannot index out of bounds: with any displacement present,
/// the entries are at most `u32::MAX` and at least one.
pub open spec fn table_wf<K, V>(m: PhfMap<K, V>) -> bool {
    &&& m.disps@.len() <= u32::MAX
    &&& m.disps@.len() > 0 ==> 0 < m.entries@.len() <= u32::MAX
}

/// A lookup in the ordered table cannot index out of bounds: with any displacement
/// present, the slots are at most `u32::MAX`, at least one, and each names an entry.
pub open spec fn ordered_table_wf<K, V>(m: PhfOrderedMap<K, V>) -> bool {
    &&& m.disps@.len() <= u32::MAX
    &&& m.disps@.len() > 0 ==> 0 < m.idxs@.len() <= u32::MAX
    &&& forall|i: int| 0 <= i < m.idxs@.len() ==> #[trigger] m.idxs@[i] < m.entries@.len()
}

/// The hash values `(g, f1, f2)` that phf_shared derives from a string key under a
/// table's hash key.
pub uninterp spec fn phf_hashes(key: Seq<char>, hash_key: u64) -> (u32, u32, u32);

/// `d2 + f1 * d1 + f2` in wrapping 32-bit arithmetic.
pub open spec fn displace(f1: u32, f2: u32, d1: u32, d2: u32) -> int {
    (d2 as int + f1 as int * d1 as int + f2 as int) % 0x1_0000_0000
}

/// The slot that hash values select among `len` slots through the displacements.
pub open spec fn slot(h: (u32, u32, u32), disps: Seq<(u32, u32)>, len: nat) -> int {
    let d = disps[h.0 as int % disps.len() as int];
    displace(h.1, h.2, d.0, d.1) % len as int
}

/// Every entry sits at the slot of its own key, and a table with entries has
/// displacements: each key of the table is found.
pub open spec fn table_perfect<V>(m: PhfMap<&'static str, V>) -> bool {
    &&& m.entries@.len() > 0 ==> m.disps@.len() > 0
    &&& forall|i: int|
        0 <= i < m.entries@.len() ==> slot(phf_hashes(#[trigger] m.entries@[i].0@, m.key), m.disps@, m.entries@.len()) == i
}

/// Every entry is named by the slot of its own key, and a table with entries has
/// displacements: each key of the table is found.
pub open spec fn ordered_table_perfect<V>(m: PhfOrderedMap<&'static str, V>) -> bool {
    &&& m.entries@.len() > 0 ==> m.disps@.len() > 0
    &&& forall|i: int|
        0 <= i < m.entries@.len() ==> m.idxs@[slot(phf_hashes(#[trigger] m.entries@[i].0@, m.key), m.disps@, m.idxs@.len())] == i
}

const U32_MAX: usize = 0xFFFF_FFFF;

fn check_table<K, V>(m: &PhfMap<K, V>) -> (r: bool)
    ensures
        r == table_wf(*m),
{
    let d = m.disps.len();
    let n = m.entries.len();
    d <= U32_MAX && (d == 0 || (n > 0 && n <= U32_MAX))
}

fn check_ordered_table<K, V>(m: &PhfOrderedMap<K, V>) -> (r: bool)
    ensures
        r == ordered_table_wf(*m),
{
    let d = m.disps.len();
    let k = m.idxs.len();
    let n = m.entries.len();
    if d > U32_MAX || (d > 0 && (k == 0 || k > U32_MAX)) {
        return false;
    }
    let mut i: usize = 0;
    while i < k
        invariant
            k == m.idxs@.len(),
            n == m.entries@.len(),
            i <= k,
            forall|j: int| 0 <= j < i ==> #[trigger] m.idxs@[j] < n,
        decreases k - i,
    {
        if m.idxs[i] >= n {
            return false;
        }
        i = i + 1;
    }
    true
}

/// In a perfect table no key occurs twice: each key has one slot.
pub proof fn lemma_perfect_keys_distinct<V>(m: PhfMap<&'static str, V>, i: int, j: int)
    requires
        table_perfect(m),
        0 <= i < m.entries@.len(),
        0 <= j < m.entries@.len(),
        m.entries@[i].0@ == m.entries@[j].0@,
    ensures
        i == j,
{
    assert(slot(phf_hashes(m.entries@[i].0@, m.key), m.disps@, m.entries@.len()) == i);
    assert(slot(phf_hashes(m.entries@[j].0@, m.key), m.disps@, m.entries@.len()) == j);
}

/// In a perfect ordered table no key occurs twice: each key has one slot.
pub proof fn lemma_ordered_perfect_keys_distinct<V>(m: PhfOrderedMap<&'static str, V>, i: int, j: int)
    requires
        ordered_table_perfect(m),
        0 <= i < m.entries@.len(),
        0 <= j < m.entries@.len(),
        m.entries@[i].0@ == m.entries@[j].0@,
    ensures
        i == j,
{
    assert(m.idxs@[slot(phf_hashes(m.entries@[i].0@, m.key), m.disps@, m.idxs@.len())] == i);
    assert(m.idxs@[slot(phf_hashes(m.entries@[j].0@, m.key), m.disps@, m.idxs@.len())] == j);
}

/// Relies on phf::Map::get_entry: with no displacements it finds nothing; otherwise
/// it hashes the key (phf_shared::hash), takes the slot that phf_shared::get_index
/// computes, and returns that entry only if its key equals the one asked for.
#[verifier::external_body]
fn table_entry<'a, V>(m: &'a PhfMap<&'static str, V>, key: &str) -> (r: Option<(&'a &'static str, &'a V)>)
    requires
        table_wf(*m),
    ensures
        m.disps@.len() == 0 ==> r is None,
        m.disps@.len() > 0 ==> ({
            let i = slot(phf_hashes(key@, m.key), m.disps@, m.entries@.len());
            if m.entries@[i].0@ == key@ {
                r matches Some(kv) && *kv.0 == m.entries@[i].0 && *kv.1 == m.entries@[i].1
            } else {
                r is None
            }
        }),
{
    m.get_entry(key)
}

/// Relies on phf::OrderedMap::get_index: with no displacements it finds nothing;
/// otherwise it hashes the key (phf_shared::hash), takes the slot that
/// phf_shared::get_index computes, and returns the index stored there only if that
/// entry's key equals the one asked for.
#[verifier::external_body]
fn ordered_table_index<V>(m: &PhfOrderedMap<&'static str, V>, key: &str) -> (r: Option<usize>)
    requires
        ordered_table_wf(*m),
    ensures
        m.disps@.len() == 0 ==> r is None,
        m.disps@.len() > 0 ==> ({
            let i = m.idxs@[slot(phf_hashes(key@, m.key), m.disps@, m.idxs@.len())];
            if m.entries@[i as int].0@ == key@ {
                r == Some(i)
            } else {
                r is None
            }
        }),
{
    m.get_index(key)
}

/// An immutable map with lookup by a perfect hash function, in no particular order.
#[verifier::reject_recursive_types(K)]
#[verifier::reject_recursive_types(V)]
pub struct StaticMap<K: 'static, V: 'static> {
    pub map: PhfMap<K, V>,
}

impl<K, V> StaticMap<K, V> {
    /// The entries, in table order.
    pub open spec fn spec_entries(&self) -> Seq<(K, V)> {
        self.map.entries@
    }

    pub open spec fn wf(&self) -> bool {
        table_wf(self.map)
    }

    /// Whether lookups in the table are safe to run: `wf` as an executable check.
    pub fn is_well_formed(&self) -> (r: bool)
        ensures
            r == self.wf(),
    {
        check_table(&self.map)
    }

    pub fn len(&self) -> (r: usize)
        ensures
            r == self.spec_entries().len(),
    {
        self.map.entries.len()
    }

    pub fn is_empty(&self) -> (r: bool)
        ensures
            r == (self.spec_entries().len() == 0),
    {
        self.map.entries.len() == 0
    }

    /// The entries, in table order.
    pub fn entries(&self) -> (r: &[(K, V)])
        ensures
            r@ == self.spec_entries(),
    {
        self.map.entries
    }

    /// The keys, in table order.
    pub fn keys(&self) -> (r: Vec<&K>)
        ensures
            r@.len() == self.spec_entries().len(),
            forall|i: int| 0 <= i < r@.len() ==> *#[trigger] r@[i] == self.spec_entries()[i].0,
    {
        let entries = self.map.entries;
        let mut r: Vec<&K> = Vec::new();
        let mut i: usize = 0;
        while i < entries.len()
            invariant
                entries@ == self.spec_entries(),
                i <= entries@.len(),
                r@.len() == i,
                forall|j: int| 0 <= j < i ==> *#[trigger] r@[j] == entries@[j].0,
            decreases entries@.len() - i,
        {
            r.push(&entries[i].0);
            i = i + 1;
        }
        r
    }

    /// The values, in table order.
    pub fn values(&self) -> (r: Vec<&V>)
        ensures
            r@.len() == self.spec_entries().len(),
            forall|i: int| 0 <= i < r@.len() ==> *#[trigger] r@[i] == self.spec_entries()[i].1,
    {
        let entries = self.map.entries;
        let mut r: Vec<&V> = Vec::new();
        let mut i: usize = 0;
        while i < entries.len()
            invariant
                entries@ == self.spec_entries(),
                i <= entries@.len(),
                r@.len() == i,
                forall|j: int| 0 <= j < i ==> *#[trigger] r@[j] == entries@[j].1,
            decreases entries@.len() - i,
        {
            r.push(&entries[i].1);
            i = i + 1;
        }
        r
    }

    /// Wraps a table as generated.
    pub fn init_raw(map: PhfMap<K, V>) -> (r: StaticMap<K, V>)
        ensures
            r.map == map,
    {
        StaticMap { map }
    }
}

impl<V> StaticMap<&'static str, V> {
    /// Every key of the table is found by a lookup.
    pub open spec fn is_perfect(&self) -> bool {
        table_perfect(self.map)
    }

    /// The entry whose key is `key`: never an entry of another key, none when no entry
    /// has that key, and in a perfect table the entry that has it.
    pub fn get_entry(&self, key: &str) -> (r: Option<(&&'static str, &V)>)
        requires
            self.wf(),
        ensures
            r matches Some(kv) ==> exists|i: int|
                0 <= i < self.spec_entries().len() && self.spec_entries()[i].0@ == key@ && *kv.0
                    == self.spec_entries()[i].0 && *kv.1 == self.spec_entries()[i].1,
            self.is_perfect() ==> forall|i: int|
                0 <= i < self.spec_entries().len() && #[trigger] self.spec_entries()[i].0@ == key@
                    ==> (r matches Some(kv) && *kv.0 == self.spec_entries()[i].0 && *kv.1
                    == self.spec_entries()[i].1),
    {
        let r = table_entry(&self.map, key);
        proof {
            let m = self.map;
            if m.disps@.len() > 0 {
                let i = slot(phf_hashes(key@, m.key), m.disps@, m.entries@.len());
                assert(0 <= i < m.entries@.len());
                assert(self.spec_entries()[i] == m.entries@[i]);
            }
            if self.is_perfect() {
                assert forall|i: int|
                    0 <= i < self.spec_entries().len() && #[trigger] self.spec_entries()[i].0@ == key@
                        implies (r matches Some(kv) && *kv.0 == self.spec_entries()[i].0 && *kv.1
                        == self.spec_entries()[i].1) by {
                    assert(slot(phf_hashes(m.entries@[i].0@, m.key), m.disps@, m.entries@.len()) == i);
                }
            }
        }
        r
    }

    /// The value stored under `key`: in a perfect table, the value of the entry with
    /// that key; none when no entry has it.
    pub fn get(&self, key: &str) -> (r: Option<&V>)
        requires
            self.wf(),
        ensures
            r matches Some(v) ==> exists|i: int|
                0 <= i < self.spec_entries().len() && self.spec_entries()[i].0@ == key@ && *v
                    == self.spec_entries()[i].1,
            self.is_perfect() ==> forall|i: int|
                0 <= i < self.spec_entries().len() && #[trigger] self.spec_entries()[i].0@ == key@
                    ==> (r matches Some(v) && *v == self.spec_entries()[i].1),
    {
        match self.get_entry(key) {
            Some(kv) => Some(kv.1),
            None => None,
        }
    }

    /// The stored key equal to `key`.
    pub fn get_key(&self, key: &str) -> (r: Option<&&'static str>)
        requires
            self.wf(),
        ensures
            r matches Some(k) ==> k@ == key@ && exists|i: int|
                0 <= i < self.spec_entries().len() && *k == self.spec_entries()[i].0,
            self.is_perfect() ==> forall|i: int|
                0 <= i < self.spec_entries().len() && #[trigger] self.spec_entries()[i].0@ == key@
                    ==> (r matches Some(k) && *k == self.spec_entries()[i].0),
    {
        match self.get_entry(key) {
            Some(kv) => Some(kv.0),
            None => None,
        }
    }

    /// Whether an entry with `key` is found: never for a key the table lacks, and in a
    /// perfect table exactly when some entry has it.
    pub fn contains_key(&self, key: &str) -> (r: bool)
        requires
            self.wf(),
        ensures
            r ==> exists|i: int| 0 <= i < self.spec_entries().len() && self.spec_entries()[i].0@ == key@,
            self.is_perfect() ==> (r <==> exists|i: int|
                0 <= i < self.spec_entries().len() && #[trigger] self.spec_entries()[i].0@ == key@),
    {
        self.get_entry(key).is_some()
    }
}

/// An immutable map with lookup by a perfect hash function that keeps the order in
/// which its entries were given.
#[verifier::reject_recursive_types(K)]
#[verifier::reject_recursive_types(V)]
pub struct OrderedMap<K: 'static, V: 'static> {
    pub map: PhfOrderedMap<K, V>,
}

impl<K, V> OrderedMap<K, V> {
    /// The entries, in the order they were given.
    pub open spec fn spec_entries(&self) -> Seq<(K, V)> {
        self.map.entries@
    }

    pub open spec fn wf(&self) -> bool {
        ordered_table_wf(self.map)
    }

    /// Whether lookups in the table are safe to run: `wf` as an executable check.
    pub fn is_well_formed(&self) -> (r: bool)
        ensures
            r == self.wf(),
    {
        check_ordered_table(&self.map)
    }

    pub fn len(&self) -> (r: usize)
        ensures
            r == self.spec_entries().len(),
    {
        self.map.entries.len()
    }

    pub fn is_empty(&self) -> (r: bool)
        ensures
            r == (self.spec_entries().len() == 0),
    {
        self.map.entries.len() == 0
    }

    /// The entry at position `index` in the order of definition.
    pub fn index(&self, index: usize) -> (r: Option<(&K, &V)>)
        ensures
            index < self.spec_entries().len() ==> (r matches Some(kv) && *kv.0
                == self.spec_entries()[index as int].0 && *kv.1 == self.spec_entries()[index as int].1),
            index >= self.spec_entries().len() ==> r is None,
    {
        if index < self.map.entries.len() {
            let e = &self.map.entries[index];
            Some((&e.0, &e.1))
        } else {
            None
        }
    }

    /// The entries, in the order they were given.
    pub fn entries(&self) -> (r: &[(K, V)])
        ensures
            r@ == self.spec_entries(),
    {
        self.map.entries
    }

    /// The keys, in the order they were given.
    pub fn keys(&self) -> (r: Vec<&K>)
        ensures
            r@.len() == self.spec_entries().len(),
            forall|i: int| 0 <= i < r@.len() ==> *#[trigger] r@[i] == self.spec_entries()[i].0,
    {
        let entries = self.map.entries;
        let mut r: Vec<&K> = Vec::new();
        let mut i: usize = 0;
        while i < entries.len()
            invariant
                entries@ == self.spec_entries(),
                i <= entries@.len(),
                r@.len() == i,
                forall|j: int| 0 <= j < i ==> *#[trigger] r@[j] == entries@[j].0,
            decreases entries@.len() - i,
        {
            r.push(&entries[i].0);
            i = i + 1;
        }
        r
    }

    /// The values, in the order they were given.
    pub fn values(&self) -> (r: Vec<&V>)
        ensures
            r@.len() == self.spec_entries().len(),
            forall|i: int| 0 <= i < r@.len() ==> *#[trigger] r@[i] == self.spec_entries()[i].1,
    {
        let entries = self.map.entries;
        let mut r: Vec<&V> = Vec::new();
        let mut i: usize = 0;
        while i < entries.len()
            invariant
                entries@ == self.spec_entries(),
                i <= entries@.len(),
                r@.len() == i,
                forall|j: int| 0 <= j < i ==> *#[trigger] r@[j] == entries@[j].1,
            decreases entries@.len() - i,
        {
            r.push(&entries[i].1);
            i = i + 1;
        }
        r
    }

    /// Wraps a table as generated.
    pub fn init_raw(map: PhfOrderedMap<K, V>) -> (r: OrderedMap<K, V>)
        ensures
            r.map == map,
    {
        OrderedMap { map }
    }
}

impl<V> OrderedMap<&'static str, V> {
    /// Every key of the table is found by a lookup.
    pub open spec fn is_perfect(&self) -> bool {
        ordered_table_perfect(self.map)
    }

    /// The position of the entry whose key is `key`: never that of another key, none
    /// when no entry has that key, and in a perfect table the position of the entry
    /// that has it.
    pub fn get_index(&self, key: &str) -> (r: Option<usize>)
        requires
            self.wf(),
        ensures
            r matches Some(i) ==> i < self.spec_entries().len() && self.spec_entries()[i as int].0@
                == key@,
            self.is_perfect() ==> forall|i: int|
                0 <= i < self.spec_entries().len() && #[trigger] self.spec_entries()[i].0@ == key@
                    ==> r == Some(i as usize),
    {
        let r = ordered_table_index(&self.map, key);
        proof {
            let m = self.map;
            if m.disps@.len() > 0 {
                let s = slot(phf_hashes(key@, m.key), m.disps@, m.idxs@.len());
                assert(0 <= s < m.idxs@.len());
                assert(m.idxs@[s] < m.entries@.len());
            }
            if self.is_perfect() {
                assert forall|i: int|
                    0 <= i < self.spec_entries().len() && #[trigger] self.spec_entries()[i].0@ == key@
                        implies r == Some(i as usize) by {
                    assert(m.idxs@[slot(phf_hashes(m.entries@[i].0@, m.key), m.disps@, m.idxs@.len())] == i);
                }
            }
        }
        r
    }

    /// The entry whose key is `key`.
    pub fn get_entry(&self, key: &str) -> (r: Option<(&&'static str, &V)>)
        requires
            self.wf(),
        ensures
            r matches Some(kv) ==> exists|i: int|
                0 <= i < self.spec_entries().len() && self.spec_entries()[i].0@ == key@ && *kv.0
                    == self.spec_entries()[i].0 && *kv.1 == self.spec_entries()[i].1,
            self.is_perfect() ==> forall|i: int|
                0 <= i < self.spec_entries().len() && #[trigger] self.spec_entries()[i].0@ == key@
                    ==> (r matches Some(kv) && *kv.0 == self.spec_entries()[i].0 && *kv.1
                    == self.spec_entries()[i].1),
    {
        match self.get_index(key) {
            Some(i) => self.index(i),
            None => None,
        }
    }

    /// The value stored under `key`.
    pub fn get(&self, key: &str) -> (r: Option<&V>)
        requires
            self.wf(),
        ensures
            r matches Some(v) ==> exists|i: int|
                0 <= i < self.spec_entries().len() && self.spec_entries()[i].0@ == key@ && *v
                    == self.spec_entries()[i].1,
            self.is_perfect() ==> forall|i: int|
                0 <= i < self.spec_entries().len() && #[trigger] self.spec_entries()[i].0@ == key@
                    ==> (r matches Some(v) && *v == self.spec_entries()[i].1),
    {
        match self.get_entry(key) {
            Some(kv) => Some(kv.1),
            None => None,
        }
    }

    /// The stored key equal to `key`.
    pub fn get_key(&self, key: &str) -> (r: Option<&&'static str>)
        requires
            self.wf(),
        ensures
            r matches Some(k) ==> k@ == key@ && exists|i: int|
                0 <= i < self.spec_entries().len() && *k == self.spec_entries()[i].0,
            self.is_perfect() ==> forall|i: int|
                0 <= i < self.spec_entries().len() && #[trigger] self.spec_entries()[i].0@ == key@
                    ==> (r matches Some(k) && *k == self.spec_entries()[i].0),
    {
        match self.get_entry(key) {
            Some(kv) => Some(kv.0),
            None => None,
        }
    }

    /// Whether an entry with `key` is found.
    pub fn contains_key(&self, key: &str) -> (r: bool)
        requires
            self.wf(),
        ensures
            r ==> exists|i: int| 0 <= i < self.spec_entries().len() && self.spec_entries()[i].0@ == key@,
            self.is_perfect() ==> (r <==> exists|i: int|
                0 <= i < self.spec_entries().len() && #[trigger] self.spec_entries()[i].0@ == key@),
    {
        self.get_index(key).is_some()
    }
}

/// An immutable set with lookup by a perfect hash function, in no particular order.
#[verifier::reject_recursive_types(T)]
pub struct StaticSet<T: 'static> {
    pub set: PhfSet<T>,
}

impl<T> StaticSet<T> {
    /// The members, in table order.
    pub open spec fn spec_members(&self) -> Seq<T> {
        self.set.map.entries@.map_values(|e: (T, ())| e.0)
    }

    pub open spec fn wf(&self) -> bool {
        table_wf(self.set.map)
    }

    /// Whether lookups in the table are safe to run: `wf` as an executable check.
    pub fn is_well_formed(&self) -> (r: bool)
        ensures
            r == self.wf(),
    {
        check_table(&self.set.map)
    }

    pub fn len(&self) -> (r: usize)
        ensures
            r == self.spec_members().len(),
    {
        self.set.map.entries.len()
    }

    pub fn is_empty(&self) -> (r: bool)
        ensures
            r == (self.spec_members().len() == 0),
    {
        self.set.map.entries.len() == 0
    }

    /// The members, in table order.
    pub fn iter(&self) -> (r: Vec<&T>)
        ensures
            r@.len() == self.spec_members().len(),
            forall|i: int| 0 <= i < r@.len() ==> *#[trigger] r@[i] == self.spec_members()[i],
    {
        let entries = self.set.map.entries;
        let mut r: Vec<&T> = Vec::new();
        let mut i: usize = 0;
        while i < entries.len()
            invariant
                entries@ == self.set.map.entries@,
                i <= entries@.len(),
                r@.len() == i,
                forall|j: int| 0 <= j < i ==> *#[trigger] r@[j] == entries@[j].0,
            decreases entries@.len() - i,
        {
            r.push(&entries[i].0);
            i = i + 1;
        }
        r
    }

    /// Wraps a table as generated.
    pub fn init_raw(set: PhfSet<T>) -> (r: StaticSet<T>)
        ensures
            r.set == set,
    {
        StaticSet { set }
    }
}

impl StaticSet<&'static str> {
    /// Every member of the set is found by a lookup.
    pub open spec fn is_perfect(&self) -> bool {
        table_perfect(self.set.map)
    }

    /// The stored member equal to `key`: never another member, none when no member
    /// equals `key`, and in a perfect set the member that does.
    pub fn get_key(&self, key: &str) -> (r: Option<&&'static str>)
        requires
            self.wf(),
        ensures
            r matches Some(k) ==> k@ == key@ && exists|i: int|
                0 <= i < self.spec_members().len() && *k == self.spec_members()[i],
            self.is_perfect() ==> forall|i: int|
                0 <= i < self.spec_members().len() && #[trigger] self.spec_members()[i]@ == key@
                    ==> (r matches Some(k) && *k == self.spec_members()[i]),
    {
        let r = table_entry(&self.set.map, key);
        proof {
            let m = self.set.map;
            if m.disps@.len() > 0 {
                let i = slot(phf_hashes(key@, m.key), m.disps@, m.entries@.len());
                assert(0 <= i < m.entries@.len());
            }
            if r is Some {
                let kv = r->Some_0;
                let i = choose|i: int|
                    0 <= i < m.entries@.len() && m.entries@[i].0@ == key@ && *kv.0 == m.entries@[i].0
                        && *kv.1 == m.entries@[i].1;
                assert(self.spec_members()[i] == m.entries@[i].0);
            }
            if self.is_perfect() {
                assert forall|i: int|
                    0 <= i < self.spec_members().len() && #[trigger] self.spec_members()[i]@ == key@
                        implies (r matches Some(kv) && *kv.0 == self.spec_members()[i]) by {
                    assert(self.spec_members()[i] == m.entries@[i].0);
                    assert(slot(phf_hashes(m.entries@[i].0@, m.key), m.disps@, m.entries@.len()) == i);
                }
            }
        }
        match r {
            Some(kv) => Some(kv.0),
            None => None,
        }
    }

    /// Whether `key` is found among the members: never for a key the set lacks, and
    /// in a perfect set exactly when it is a member.
    pub fn contains(&self, key: &str) -> (r: bool)
        requires
            self.wf(),
        ensures
            r ==> exists|i: int| 0 <= i < self.spec_members().len() && self.spec_members()[i]@ == key@,
            self.is_perfect() ==> (r <==> exists|i: int|
                0 <= i < self.spec_members().len() && #[trigger] self.spec_members()[i]@ == key@),
    {
        self.get_key(key).is_some()
    }
}

/// An immutable set with lookup by a perfect hash function that keeps the order in
/// which its members were given.
#[verifier::reject_recursive_types(T)]
pub struct OrderedSet<T: 'static> {
    pub set: PhfOrderedSet<T>,
}

impl<T> OrderedSet<T> {
    /// The members, in the order they were given.
    pub open spec fn spec_members(&self) -> Seq<T> {
        self.set.map.entries@.map_values(|e: (T, ())| e.0)
    }

    pub open spec fn wf(&self) -> bool {
        ordered_table_wf(self.set.map)
    }

    /// Whether lookups in the table are safe to run: `wf` as an executable check.
    pub fn is_well_formed(&self) -> (r: bool)
        ensures
            r == self.wf(),
    {
        check_ordered_table(&self.set.map)
    }

    pub fn len(&self) -> (r: usize)
        ensures
            r == self.spec_members().len(),
    {
        self.set.map.entries.len()
    }

    pub fn is_empty(&self) -> (r: bool)
        ensures
            r == (self.spec_members().len() == 0),
    {
        self.set.map.entries.len() == 0
    }

    /// The members, in the order they were given.
    pub fn iter(&self) -> (r: Vec<&T>)
        ensures
            r@.len() == self.spec_members().len(),
            forall|i: int| 0 <= i < r@.len() ==> *#[trigger] r@[i] == self.spec_members()[i],
    {
        let entries = self.set.map.entries;
        let mut r: Vec<&T> = Vec::new();
        let mut i: usize = 0;
        while i < entries.len()
            invariant
                entries@ == self.set.map.entries@,
                i <= entries@.len(),
                r@.len() == i,
                forall|j: int| 0 <= j < i ==> *#[trigger] r@[j] == entries@[j].0,
            decreases entries@.len() - i,
        {
            r.push(&entries[i].0);
            i = i + 1;
        }
        r
    }

    /// Wraps a table as generated.
    pub fn init_raw(set: PhfOrderedSet<T>) -> (r: OrderedSet<T>)
        ensures
            r.set == set,
    {
        OrderedSet { set }
    }
}

impl OrderedSet<&'static str> {
    /// Every member of the set is found by a lookup.
    pub open spec fn is_perfect(&self) -> bool {
        ordered_table_perfect(self.set.map)
    }

    /// The stored member equal to `key`: never another member, none when no member
    /// equals `key`, and in a perfect set the member that does.
    pub fn get_key(&self, key: &str) -> (r: Option<&&'static str>)
        requires
            self.wf(),
        ensures
            r matches Some(k) ==> k@ == key@ && exists|i: int|
                0 <= i < self.spec_members().len() && *k == self.spec_members()[i],
            self.is_perfect() ==> forall|i: int|
                0 <= i < self.spec_members().len() && #[trigger] self.spec_members()[i]@ == key@
                    ==> (r matches Some(k) && *k == self.spec_members()[i]),
    {
        let r = ordered_table_index(&self.set.map, key);
        proof {
            let m = self.set.map;
            if m.disps@.len() > 0 {
                let s = slot(phf_hashes(key@, m.key), m.disps@, m.idxs@.len());
                assert(0 <= s < m.idxs@.len());
                assert(m.idxs@[s] < m.entries@.len());
            }
            if self.is_perfect() {
                assert forall|i: int|
                    0 <= i < self.spec_members().len() && #[trigger] self.spec_members()[i]@ == key@
                        implies r == Some(i as usize) by {
                    assert(self.spec_members()[i] == m.entries@[i].0);
                    assert(m.idxs@[slot(phf_hashes(m.entries@[i].0@, m.key), m.disps@, m.idxs@.len())] == i);
                }
            }
        }
        match r {
            Some(i) => {
                let k = &self.set.map.entries[i].0;
                assert(self.spec_members()[i as int] == *k);
                Some(k)
            },
            None => None,
        }
    }

    /// Whether `key` is found among the members: never for a key the set lacks, and
    /// in a perfect set exactly when it is a member.
    pub fn contains(&self, key: &str) -> (r: bool)
        requires
            self.wf(),
        ensures
            r ==> exists|i: int| 0 <= i < self.spec_members().len() && self.spec_members()[i]@ == key@,
            self.is_perfect() ==> (r <==> exists|i: int|
                0 <= i < self.spec_members().len() && #[trigger] self.spec_members()[i]@ == key@),
    {
        self.get_key(key).is_some()
    }
}

} // verus!
