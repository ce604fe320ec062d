//! Builders that collect entries during generation and hand them to the perfect-hash
//! generator, which lays out the table that the main crate imports as an expression.
use vstd::prelude::*;
use phf_codegen::Map as CodegenMap;
use phf_codegen::OrderedMap as CodegenOrderedMap;
use phf_codegen::OrderedSet as CodegenOrderedSet;
use phf_codegen::Set as CodegenSet;
use crate::expr::{expr_text, to_expr, Value};
use crate::emit::concat_all;
use crate::source::{expr_parses, is_expr};

verus! {

#[verifier::external_type_specification]
#[verifier::external_body]
#[verifier::reject_recursive_types(K)]
pub struct ExCodegenMap<K>(CodegenMap<K>);

#[verifier::external_type_specification]
#[verifier::external_body]
#[verifier::reject_recursive_types(K)]
pub struct ExCodegenOrderedMap<K>(CodegenOrderedMap<K>);

#[verifier::external_type_specification]
#[verifier::external_body]
#[verifier::reject_recursive_types(T)]
pub struct ExCodegenSet<T>(CodegenSet<T>);

#[verifier::external_type_specification]
#[verifier::external_body]
#[verifier::reject_recursive_types(T)]
pub struct ExCodegenOrderedSet<T>(CodegenOrderedSet<T>);

/// A string key as the generator prints it: its `Debug` form.
pub uninterp spec fn str_debug(s: Seq<char>) -> Seq<char>;

/// One entry as a table prints it, from the printed key and value.
pub open spec fn entry_line(key: Seq<char>, value: Seq<char>) -> Seq<char> {
    "\n        ("@ + key + ", "@ + value + "),"@
}

/// The entries with each key in its printed form.
pub open spec fn printed(entries: Seq<(Seq<char>, Seq<char>)>) -> Seq<(Seq<char>, Seq<char>)> {
    entries.map_values(|e: (Seq<char>, Seq<char>)| (str_debug(e.0), e.1))
}

/// How a table's text ends: its printed entries, in the order listed.
pub open spec fn entries_block(entries: Seq<(Seq<char>, Seq<char>)>) -> Seq<char> {
    "\n    entries: &["@ + concat_all(
        Seq::new(entries.len(), |i: int| entry_line(entries[i].0, entries[i].1)),
    ) + "\n    ],\n}"@
}

/// `s` ends with `suffix`.
pub open spec fn ends_with(s: Seq<char>, suffix: Seq<char>) -> bool {
    suffix.len() <= s.len() && s.subrange(s.len() - suffix.len(), s.len() as int) == suffix
}

/// `p` lists each of `0..n` exactly once.
pub open spec fn is_permutation(p: Seq<int>, n: nat) -> bool {
    &&& p.len() == n
    &&& forall|i: int| 0 <= i < n ==> 0 <= #[trigger] p[i] < n
    &&& forall|i: int, j: int| 0 <= i < j < n ==> p[i] != p[j]
}

/// The entries in the order `p` gives.
pub open spec fn reorder(entries: Seq<(Seq<char>, Seq<char>)>, p: Seq<int>) -> Seq<(Seq<char>, Seq<char>)> {
    Seq::new(p.len(), |i: int| entries[p[i]])
}

/// `text` ends with all of `entries`, each once, in some order, followed by `tail`.
pub open spec fn lists_entries(text: Seq<char>, entries: Seq<(Seq<char>, Seq<char>)>, tail: Seq<char>) -> bool {
    exists|p: Seq<int>|
        #[trigger] is_permutation(p, entries.len()) && ends_with(text, entries_block(reorder(entries, p)) + tail)
}

/// The entries of a set's table: each key with the unit value.
pub open spec fn set_entries(keys: Seq<Seq<char>>) -> Seq<(Seq<char>, Seq<char>)> {
    keys.map_values(|k: Seq<char>| (k, "()"@))
}

pub open spec fn keys_distinct(keys: Seq<Seq<char>>) -> bool {
    forall|i: int, j: int| 0 <= i < j < keys.len() ==> keys[i] != keys[j]
}

pub open spec fn entry_keys(entries: Seq<(Seq<char>, Seq<char>)>) -> Seq<Seq<char>> {
    entries.map_values(|e: (Seq<char>, Seq<char>)| e.0)
}

/// The `(key, value expression)` pairs a map generator holds, in the order given.
pub uninterp spec fn map_gen_entries(m: CodegenMap<String>) -> Seq<(Seq<char>, Seq<char>)>;

/// The `(key, value expression)` pairs an ordered map generator holds, in the order given.
pub uninterp spec fn ordered_map_gen_entries(m: CodegenOrderedMap<String>) -> Seq<(Seq<char>, Seq<char>)>;

/// The keys a set generator holds, in the order given.
pub uninterp spec fn set_gen_keys(s: CodegenSet<String>) -> Seq<Seq<char>>;

/// The keys an ordered set generator holds, in the order given.
pub uninterp spec fn ordered_set_gen_keys(s: CodegenOrderedSet<String>) -> Seq<Seq<char>>;

/// Relies on phf_codegen::Map::new: a generator with no entries.
#[verifier::external_body]
fn map_gen_new() -> (r: CodegenMap<String>)
    ensures
        map_gen_entries(r) == Seq::<(Seq<char>, Seq<char>)>::empty(),
{
    CodegenMap::new()
}

/// Relies on phf_codegen::Map::phf_path: sets the path only.
#[verifier::external_body]
fn map_gen_path(m: &mut CodegenMap<String>, path: &str)
    ensures
        map_gen_entries(*final(m)) == map_gen_entries(*old(m)),
{
    m.phf_path(path);
}

/// Relies on phf_codegen::Map::entry: appends the key and the value's text.
#[verifier::external_body]
fn map_gen_entry(m: &mut CodegenMap<String>, key: String, value: &str)
    ensures
        map_gen_entries(*final(m)) == map_gen_entries(*old(m)).push((key@, value@)),
{
    m.entry(key, value);
}

/// Relies on phf_codegen::Map::build and its `Display`: the hash state comes from
/// phf_generator, whose random generator differs between platforms, so only the
/// layout is stated. It prints the table, which ends with every entry once, in the order of the hash slots, each key in its `Debug` form (phf_shared's
/// `FmtConst` for `String`). It panics on a repeated key, which `requires`
/// leaves out.
#[verifier::external_body]
fn map_gen_build(m: &CodegenMap<String>) -> (r: String)
    requires
        keys_distinct(entry_keys(map_gen_entries(*m))),
    ensures
        lists_entries(
            r@,
            map_gen_entries(*m).map_values(
                |e: (Seq<char>, Seq<char>)| (str_debug(e.0), e.1),
            ),
            Seq::empty(),
        ),
{
    m.build().to_string()
}

/// Relies on phf_codegen::OrderedMap::new: a generator with no entries.
#[verifier::external_body]
fn ordered_map_gen_new() -> (r: CodegenOrderedMap<String>)
    ensures
        ordered_map_gen_entries(r) == Seq::<(Seq<char>, Seq<char>)>::empty(),
{
    CodegenOrderedMap::new()
}

/// Relies on phf_codegen::OrderedMap::phf_path: sets the path only.
#[verifier::external_body]
fn ordered_map_gen_path(m: &mut CodegenOrderedMap<String>, path: &str)
    ensures
        ordered_map_gen_entries(*final(m)) == ordered_map_gen_entries(*old(m)),
{
    m.phf_path(path);
}

/// Relies on phf_codegen::OrderedMap::entry: appends the key and the value's text.
#[verifier::external_body]
fn ordered_map_gen_entry(m: &mut CodegenOrderedMap<String>, key: String, value: &str)
    ensures
        ordered_map_gen_entries(*final(m)) == ordered_map_gen_entries(*old(m)).push((key@, value@)),
{
    m.entry(key, value);
}

/// Relies on phf_codegen::OrderedMap::build and its `Display`: the hash state comes from
/// phf_generator, whose random generator differs between platforms, so only the
/// layout is stated. It prints the table, which ends with the entries in the order given, each key in its `Debug` form (phf_shared's
/// `FmtConst` for `String`). It panics on a repeated key, which `requires`
/// leaves out.
#[verifier::external_body]
fn ordered_map_gen_build(m: &CodegenOrderedMap<String>) -> (r: String)
    requires
        keys_distinct(entry_keys(ordered_map_gen_entries(*m))),
    ensures
        ends_with(
            r@,
            entries_block(
            ordered_map_gen_entries(*m).map_values(
                |e: (Seq<char>, Seq<char>)| (str_debug(e.0), e.1),
            ),
            ),
        ),
{
    m.build().to_string()
}

/// Relies on phf_codegen::Set::new: a generator with no entries.
#[verifier::external_body]
fn set_gen_new() -> (r: CodegenSet<String>)
    ensures
        set_gen_keys(r) == Seq::<Seq<char>>::empty(),
{
    CodegenSet::new()
}

/// Relies on phf_codegen::Set::phf_path: sets the path only.
#[verifier::external_body]
fn set_gen_path(m: &mut CodegenSet<String>, path: &str)
    ensures
        set_gen_keys(*final(m)) == set_gen_keys(*old(m)),
{
    m.phf_path(path);
}

/// Relies on phf_codegen::Set::entry: appends the key.
#[verifier::external_body]
fn set_gen_entry(m: &mut CodegenSet<String>, key: String)
    ensures
        set_gen_keys(*final(m)) == set_gen_keys(*old(m)).push(key@),
{
    m.entry(key);
}

/// Relies on phf_codegen::Set::build and its `Display`: the hash state comes from
/// phf_generator, whose random generator differs between platforms, so only the
/// layout is stated. It prints the table, which ends with every entry once, in the order of the hash slots, each key in its `Debug` form (phf_shared's
/// `FmtConst` for `String`). A set's entries are its keys with the value `()`, and its text is
/// closed by ` }`. It panics on a repeated key, which `requires`
/// leaves out.
#[verifier::external_body]
fn set_gen_build(m: &CodegenSet<String>) -> (r: String)
    requires
        keys_distinct(set_gen_keys(*m)),
    ensures
        lists_entries(
            r@,
            set_entries(set_gen_keys(*m)).map_values(
                |e: (Seq<char>, Seq<char>)| (str_debug(e.0), e.1),
            ),
            " }"@,
        ),
{
    m.build().to_string()
}

/// Relies on phf_codegen::OrderedSet::new: a generator with no entries.
#[verifier::external_body]
fn ordered_set_gen_new() -> (r: CodegenOrderedSet<String>)
    ensures
        ordered_set_gen_keys(r) == Seq::<Seq<char>>::empty(),
{
    CodegenOrderedSet::new()
}

/// Relies on phf_codegen::OrderedSet::phf_path: sets the path only.
#[verifier::external_body]
fn ordered_set_gen_path(m: &mut CodegenOrderedSet<String>, path: &str)
    ensures
        ordered_set_gen_keys(*final(m)) == ordered_set_gen_keys(*old(m)),
{
    m.phf_path(path);
}

/// Relies on phf_codegen::OrderedSet::entry: appends the key.
#[verifier::external_body]
fn ordered_set_gen_entry(m: &mut CodegenOrderedSet<String>, key: String)
    ensures
        ordered_set_gen_keys(*final(m)) == ordered_set_gen_keys(*old(m)).push(key@),
{
    m.entry(key);
}

/// Relies on phf_codegen::OrderedSet::build and its `Display`: the hash state comes from
/// phf_generator, whose random generator differs between platforms, so only the
/// layout is stated. It prints the table, which ends with the entries in the order given, each key in its `Debug` form (phf_shared's
/// `FmtConst` for `String`). A set's entries are its keys with the value `()`, and its text is
/// closed by ` }`. It panics on a repeated key, which `requires`
/// leaves out.
#[verifier::external_body]
fn ordered_set_gen_build(m: &CodegenOrderedSet<String>) -> (r: String)
    requires
        keys_distinct(ordered_set_gen_keys(*m)),
    ensures
        ends_with(
            r@,
            entries_block(
            set_entries(ordered_set_gen_keys(*m)).map_values(
                |e: (Seq<char>, Seq<char>)| (str_debug(e.0), e.1),
            ),
            ) + " }"@,
        ),
{
    m.build().to_string()
}

/// Why a table could not be built.
#[derive(Debug, PartialEq, Eq)]
pub enum BuildError {
    /// A key was given twice; it is the one named.
    DuplicateKey(String),
    /// The generated table text is not an expression.
    Unparsable,
}

/// The four kinds of table.
#[derive(Debug, Clone, Copy, PartialEq, Eq, Structural)]
pub enum TableKind {
    StaticMap,
    OrderedMap,
    StaticSet,
    OrderedSet,
}

/// The expression that rebuilds a table of `kind` from the generated `table`.
pub open spec fn table_expr(kind: TableKind, table: Seq<char>) -> Seq<char> {
    match kind {
        TableKind::StaticMap => "rustifact::StaticMap { map: "@ + table + " }"@,
        TableKind::OrderedMap => "rustifact::OrderedMap { map: "@ + table + " }"@,
        TableKind::StaticSet => "rustifact::StaticSet { set: "@ + table + " }"@,
        TableKind::OrderedSet => "rustifact::OrderedSet { set: "@ + table + " }"@,
    }
}

/// Wraps the generated `table` in the expression that rebuilds a table of `kind`,
/// once the table text has been checked to be an expression.
pub fn finish_table(kind: TableKind, table: &str) -> (r: Result<String, BuildError>)
    ensures
        r is Ok <==> expr_parses(table@),
        r matches Ok(s) ==> s@ == table_expr(kind, table@),
        r matches Err(e) ==> e == BuildError::Unparsable,
{
    if !is_expr(table) {
        return Err(BuildError::Unparsable);
    }
    let mut r = match kind {
        TableKind::StaticMap => String::from_str("rustifact::StaticMap { map: "),
        TableKind::OrderedMap => String::from_str("rustifact::OrderedMap { map: "),
        TableKind::StaticSet => String::from_str("rustifact::StaticSet { set: "),
        TableKind::OrderedSet => String::from_str("rustifact::OrderedSet { set: "),
    };
    r.append(table);
    r.append(" }");
    Ok(r)
}

/// The first position at which a key repeats an earlier one, if any.
fn find_duplicate(keys: &Vec<String>) -> (r: Option<usize>)
    ensures
        r is None <==> keys_distinct(keys@.map_values(|k: String| k@)),
        r matches Some(j) ==> j < keys@.len() && exists|i: int| 0 <= i < j && keys@[i]@ == keys@[j as int]@,
{
    let ghost views = keys@.map_values(|k: String| k@);
    let mut j: usize = 0;
    while j < keys.len()
        invariant
            j <= keys@.len(),
            views == keys@.map_values(|k: String| k@),
            forall|a: int, b: int| 0 <= a < b < j ==> views[a] != views[b],
        decreases keys@.len() - j,
    {
        let mut i: usize = 0;
        while i < j
            invariant
                i <= j < keys@.len(),
                views == keys@.map_values(|k: String| k@),
                forall|a: int| 0 <= a < i ==> views[a] != views[j as int],
            decreases j - i,
        {
            if keys[i] == keys[j] {
                assert(views[i as int] == views[j as int]);
                return Some(j);
            }
            i = i + 1;
        }
        j = j + 1;
    }
    None
}

/// The keys a map builder keeps are those of the generator's entries, in order.
pub open spec fn builder_consistent(keys: Seq<String>, entries: Seq<(Seq<char>, Seq<char>)>) -> bool {
    keys.map_values(|k: String| k@) == entry_keys(entries)
}

proof fn lemma_push_consistent(
    keys: Seq<String>,
    entries: Seq<(Seq<char>, Seq<char>)>,
    key: String,
    value: Seq<char>,
)
    requires
        builder_consistent(keys, entries),
    ensures
        builder_consistent(keys.push(key), entries.push((key@, value))),
{
    let a = keys.push(key).map_values(|k: String| k@);
    let b = entry_keys(entries.push((key@, value)));
    assert(keys.map_values(|k: String| k@).len() == keys.len());
    assert(entry_keys(entries).len() == entries.len());
    assert(a.len() == b.len());
    assert forall|i: int| 0 <= i < a.len() implies a[i] == b[i] by {
        if i < keys.len() {
            assert(keys.map_values(|k: String| k@)[i] == entry_keys(entries)[i]);
        }
    }
    assert(a =~= b);
}

proof fn lemma_push_set_consistent(keys: Seq<String>, gen_keys: Seq<Seq<char>>, key: String)
    requires
        set_consistent(keys, gen_keys),
    ensures
        set_consistent(keys.push(key), gen_keys.push(key@)),
{
    assert(keys.push(key).map_values(|k: String| k@) =~= gen_keys.push(key@));
}

/// The keys a set builder keeps are the generator's keys, in order.
pub open spec fn set_consistent(keys: Seq<String>, gen_keys: Seq<Seq<char>>) -> bool {
    keys.map_values(|k: String| k@) == gen_keys
}

/// How the generated table text for `entries` of a table of `kind` ends: every
/// entry once, printed, in the order of the hash slots, or in the order given for
/// the ordered kinds; a set's text is closed by ` }`.
pub open spec fn table_shape(kind: TableKind, table: Seq<char>, entries: Seq<(Seq<char>, Seq<char>)>) -> bool {
    match kind {
        TableKind::StaticMap => lists_entries(table, printed(entries), Seq::empty()),
        TableKind::OrderedMap => ends_with(table, entries_block(printed(entries))),
        TableKind::StaticSet => lists_entries(table, printed(entries), " }"@),
        TableKind::OrderedSet => ends_with(table, entries_block(printed(entries)) + " }"@),
    }
}

/// What building a table of `kind` with `keys` and `entries` may give: a repeated key
/// is reported, with the key; otherwise either the error `Unparsable`, or the
/// expression around a generated table text that parses as an expression and lists
/// the entries.
pub open spec fn build_result(
    kind: TableKind,
    keys: Seq<Seq<char>>,
    entries: Seq<(Seq<char>, Seq<char>)>,
    r: Result<String, BuildError>,
) -> bool {
    &&& (r is Err && r->Err_0 is DuplicateKey) <==> !keys_distinct(keys)
    &&& r matches Err(BuildError::DuplicateKey(k)) ==> (exists|i: int, j: int|
        0 <= i < j < keys.len() && keys[i] == keys[j] && keys[j] == k@)
    &&& r matches Ok(s) ==> (exists|t: Seq<char>|
        s@ == #[trigger] table_expr(kind, t) && expr_parses(t) && table_shape(kind, t, entries))
}

/// Builds an immutable map with lookup by a perfect hash function.
pub struct MapBuilder {
    table: CodegenMap<String>,
    keys: Vec<String>,
}

impl MapBuilder {
    /// The `(key, value expression)` pairs added so far, in the order given.
    pub closed spec fn spec_entries(&self) -> Seq<(Seq<char>, Seq<char>)> {
        map_gen_entries(self.table)
    }

    pub closed spec fn wf(&self) -> bool {
        builder_consistent(self.keys@, map_gen_entries(self.table))
    }

    pub fn new() -> (r: MapBuilder)
        ensures
            r.wf(),
            r.spec_entries() == Seq::<(Seq<char>, Seq<char>)>::empty(),
    {
        let mut table = map_gen_new();
        map_gen_path(&mut table, "rustifact::phf");
        let r = MapBuilder { table, keys: Vec::new() };
        assert(r.keys@.map_values(|k: String| k@) =~= entry_keys(map_gen_entries(r.table)));
        r
    }

    /// Adds `key` with `value`, which is stored as its expression.
    pub fn entry(&mut self, key: String, value: &Value)
        requires
            old(self).wf(),
        ensures
            final(self).wf(),
            final(self).spec_entries() == old(self).spec_entries().push((key@, expr_text(*value))),
    {
        let text = to_expr(value);
        let copy = key.clone();
        map_gen_entry(&mut self.table, key, text.as_str());
        self.keys.push(copy);
        proof {
            lemma_push_consistent(old(self).keys@, map_gen_entries(old(self).table), copy, expr_text(*value));
        }
    }

    /// The expression that rebuilds the map in the main crate: the table that the
    /// generator prints for the entries, once it is checked to be an expression. A
    /// repeated key is reported instead.
    pub fn build(&self) -> (r: Result<String, BuildError>)
        requires
            self.wf(),
        ensures
            build_result(TableKind::StaticMap, entry_keys(self.spec_entries()), self.spec_entries(), r),
    {
        proof {
            assert(self.keys@.map_values(|k: String| k@) == entry_keys(self.spec_entries()));
        }
        match find_duplicate(&self.keys) {
            Some(j) => {
                let k = self.keys[j].clone();
                proof {
                    let keys = entry_keys(self.spec_entries());
                    let i = choose|i: int| 0 <= i < j && self.keys@[i]@ == self.keys@[j as int]@;
                    assert(keys[i] == self.keys@[i]@);
                    assert(keys[j as int] == self.keys@[j as int]@);
                }
                Err(BuildError::DuplicateKey(k))
            },
            None => {
                let table = map_gen_build(&self.table);
                let r = finish_table(TableKind::StaticMap, table.as_str());
                proof {
                    if r is Ok {
                        assert(table_shape(TableKind::StaticMap, table@, self.spec_entries()));
                    }
                }
                r
            },
        }
    }
}

/// Builds an immutable map with lookup by a perfect hash function that keeps the order
/// in which entries were added.
pub struct OrderedMapBuilder {
    table: CodegenOrderedMap<String>,
    keys: Vec<String>,
}

impl OrderedMapBuilder {
    /// The `(key, value expression)` pairs added so far, in the order given.
    pub closed spec fn spec_entries(&self) -> Seq<(Seq<char>, Seq<char>)> {
        ordered_map_gen_entries(self.table)
    }

    pub closed spec fn wf(&self) -> bool {
        builder_consistent(self.keys@, ordered_map_gen_entries(self.table))
    }

    pub fn new() -> (r: OrderedMapBuilder)
        ensures
            r.wf(),
            r.spec_entries() == Seq::<(Seq<char>, Seq<char>)>::empty(),
    {
        let mut table = ordered_map_gen_new();
        ordered_map_gen_path(&mut table, "rustifact::phf");
        let r = OrderedMapBuilder { table, keys: Vec::new() };
        assert(r.keys@.map_values(|k: String| k@) =~= entry_keys(ordered_map_gen_entries(r.table)));
        r
    }

    /// Adds `key` with `value`, which is stored as its expression.
    pub fn entry(&mut self, key: String, value: &Value)
        requires
            old(self).wf(),
        ensures
            final(self).wf(),
            final(self).spec_entries() == old(self).spec_entries().push((key@, expr_text(*value))),
    {
        let text = to_expr(value);
        let copy = key.clone();
        ordered_map_gen_entry(&mut self.table, key, text.as_str());
        self.keys.push(copy);
        proof {
            lemma_push_consistent(old(self).keys@, ordered_map_gen_entries(old(self).table), copy, expr_text(*value));
        }
    }

    /// The expression that rebuilds the map in the main crate: the table that the
    /// generator prints for the entries, once it is checked to be an expression. A
    /// repeated key is reported instead.
    pub fn build(&self) -> (r: Result<String, BuildError>)
        requires
            self.wf(),
        ensures
            build_result(TableKind::OrderedMap, entry_keys(self.spec_entries()), self.spec_entries(), r),
    {
        proof {
            assert(self.keys@.map_values(|k: String| k@) == entry_keys(self.spec_entries()));
        }
        match find_duplicate(&self.keys) {
            Some(j) => {
                let k = self.keys[j].clone();
                proof {
                    let keys = entry_keys(self.spec_entries());
                    let i = choose|i: int| 0 <= i < j && self.keys@[i]@ == self.keys@[j as int]@;
                    assert(keys[i] == self.keys@[i]@);
                    assert(keys[j as int] == self.keys@[j as int]@);
                }
                Err(BuildError::DuplicateKey(k))
            },
            None => {
                let table = ordered_map_gen_build(&self.table);
                let r = finish_table(TableKind::OrderedMap, table.as_str());
                proof {
                    if r is Ok {
                        assert(table_shape(TableKind::OrderedMap, table@, self.spec_entries()));
                    }
                }
                r
            },
        }
    }
}

/// Builds an immutable set with lookup by a perfect hash function.
pub struct SetBuilder {
    table: CodegenSet<String>,
    keys: Vec<String>,
}

impl SetBuilder {
    /// The keys added so far, in the order given.
    pub closed spec fn spec_keys(&self) -> Seq<Seq<char>> {
        set_gen_keys(self.table)
    }

    pub closed spec fn wf(&self) -> bool {
        set_consistent(self.keys@, set_gen_keys(self.table))
    }

    pub fn new() -> (r: SetBuilder)
        ensures
            r.wf(),
            r.spec_keys() == Seq::<Seq<char>>::empty(),
    {
        let mut table = set_gen_new();
        set_gen_path(&mut table, "rustifact::phf");
        let r = SetBuilder { table, keys: Vec::new() };
        assert(r.keys@.map_values(|k: String| k@) =~= set_gen_keys(r.table));
        r
    }

    /// Adds `key`.
    pub fn entry(&mut self, key: String)
        requires
            old(self).wf(),
        ensures
            final(self).wf(),
            final(self).spec_keys() == old(self).spec_keys().push(key@),
    {
        let copy = key.clone();
        set_gen_entry(&mut self.table, key);
        self.keys.push(copy);
        proof {
            lemma_push_set_consistent(old(self).keys@, set_gen_keys(old(self).table), copy);
        }
    }

    /// The expression that rebuilds the set in the main crate: the table that the
    /// generator prints for the keys, once it is checked to be an expression. A
    /// repeated key is reported instead.
    pub fn build(&self) -> (r: Result<String, BuildError>)
        requires
            self.wf(),
        ensures
            build_result(TableKind::StaticSet, self.spec_keys(), set_entries(self.spec_keys()), r),
    {
        proof {
            assert(self.keys@.map_values(|k: String| k@) == self.spec_keys());
        }
        match find_duplicate(&self.keys) {
            Some(j) => {
                let k = self.keys[j].clone();
                proof {
                    let i = choose|i: int| 0 <= i < j && self.keys@[i]@ == self.keys@[j as int]@;
                    assert(self.spec_keys()[i] == self.keys@[i]@);
                    assert(self.spec_keys()[j as int] == self.keys@[j as int]@);
                }
                Err(BuildError::DuplicateKey(k))
            },
            None => {
                let table = set_gen_build(&self.table);
                let r = finish_table(TableKind::StaticSet, table.as_str());
                proof {
                    if r is Ok {
                        assert(table_shape(TableKind::StaticSet, table@, set_entries(self.spec_keys())));
                    }
                }
                r
            },
        }
    }
}

/// Builds an immutable set with lookup by a perfect hash function that keeps the order
/// in which keys were added.
pub struct OrderedSetBuilder {
    table: CodegenOrderedSet<String>,
    keys: Vec<String>,
}

impl OrderedSetBuilder {
    /// The keys added so far, in the order given.
    pub closed spec fn spec_keys(&self) -> Seq<Seq<char>> {
        ordered_set_gen_keys(self.table)
    }

    pub closed spec fn wf(&self) -> bool {
        set_consistent(self.keys@, ordered_set_gen_keys(self.table))
    }

    pub fn new() -> (r: OrderedSetBuilder)
        ensures
            r.wf(),
            r.spec_keys() == Seq::<Seq<char>>::empty(),
    {
        let mut table = ordered_set_gen_new();
        ordered_set_gen_path(&mut table, "rustifact::phf");
        let r = OrderedSetBuilder { table, keys: Vec::new() };
        assert(r.keys@.map_values(|k: String| k@) =~= ordered_set_gen_keys(r.table));
        r
    }

    /// Adds `key`.
    pub fn entry(&mut self, key: String)
        requires
            old(self).wf(),
        ensures
            final(self).wf(),
            final(self).spec_keys() == old(self).spec_keys().push(key@),
    {
        let copy = key.clone();
        ordered_set_gen_entry(&mut self.table, key);
        self.keys.push(copy);
        proof {
            lemma_push_set_consistent(old(self).keys@, ordered_set_gen_keys(old(self).table), copy);
        }
    }

    /// The expression that rebuilds the set in the main crate: the table that the
    /// generator prints for the keys, once it is checked to be an expression. A
    /// repeated key is reported instead.
    pub fn build(&self) -> (r: Result<String, BuildError>)
        requires
            self.wf(),
        ensures
            build_result(TableKind::OrderedSet, self.spec_keys(), set_entries(self.spec_keys()), r),
    {
        proof {
            assert(self.keys@.map_values(|k: String| k@) == self.spec_keys());
        }
        match find_duplicate(&self.keys) {
            Some(j) => {
                let k = self.keys[j].clone();
                proof {
                    let i = choose|i: int| 0 <= i < j && self.keys@[i]@ == self.keys@[j as int]@;
                    assert(self.spec_keys()[i] == self.keys@[i]@);
                    assert(self.spec_keys()[j as int] == self.keys@[j as int]@);
                }
                Err(BuildError::DuplicateKey(k))
            },
            None => {
                let table = ordered_set_gen_build(&self.table);
                let r = finish_table(TableKind::OrderedSet, table.as_str());
                proof {
                    if r is Ok {
                        assert(table_shape(TableKind::OrderedSet, table@, set_entries(self.spec_keys())));
                    }
                }
                r
            },
        }
    }
}

} // verus!
