use rustifact::builders::{finish_table, TableKind};
use rustifact::expr::Value;
use rustifact::phf;
use rustifact::{BuildError, MapBuilder, OrderedMap, OrderedMapBuilder, OrderedSet, OrderedSetBuilder, SetBuilder, StaticMap, StaticSet};

// A hash key and displacements under which the keys land in distinct slots of a
// table of their size.
fn layout(keys: &[&str]) -> (u64, (u32, u32)) {
    for key in 0..64u64 {
        if let Some(d) = displacement(keys, key) {
            return (key, d);
        }
    }
    panic!("no layout found");
}

fn displacement(keys: &[&str], key: u64) -> Option<(u32, u32)> {
    let n = keys.len();
    for d1 in 0..64u32 {
        for d2 in 0..64u32 {
            let mut seen = vec![false; n];
            let mut ok = true;
            for k in keys {
                let h = phf_shared::hash(*k, &key);
                let i = phf_shared::get_index(&h, &[(d1, d2)], n) as usize;
                if seen[i] {
                    ok = false;
                    break;
                }
                seen[i] = true;
            }
            if ok {
                return Some((d1, d2));
            }
        }
    }
    None
}

fn slot(hash_key: u64, key: &str, disps: &[(u32, u32)], n: usize) -> usize {
    phf_shared::get_index(&phf_shared::hash(key, &hash_key), disps, n) as usize
}

fn ordered_table(entries: Vec<(&'static str, i32)>) -> OrderedMap<&'static str, i32> {
    let keys: Vec<&str> = entries.iter().map(|e| e.0).collect();
    let (hash_key, d) = layout(&keys);
    let disps: &'static [(u32, u32)] = Box::leak(vec![d].into_boxed_slice());
    let mut idxs = vec![0usize; keys.len()];
    for (i, k) in keys.iter().enumerate() {
        idxs[slot(hash_key, k, disps, keys.len())] = i;
    }
    let idxs: &'static [usize] = Box::leak(idxs.into_boxed_slice());
    let entries: &'static [(&'static str, i32)] = Box::leak(entries.into_boxed_slice());
    OrderedMap::init_raw(phf::OrderedMap { key: hash_key, disps, idxs, entries })
}

fn unordered_table(entries: Vec<(&'static str, i32)>) -> StaticMap<&'static str, i32> {
    let keys: Vec<&str> = entries.iter().map(|e| e.0).collect();
    let (hash_key, d) = layout(&keys);
    let disps: &'static [(u32, u32)] = Box::leak(vec![d].into_boxed_slice());
    let mut laid = entries.clone();
    for e in &entries {
        laid[slot(hash_key, e.0, disps, keys.len())] = *e;
    }
    let laid: &'static [(&'static str, i32)] = Box::leak(laid.into_boxed_slice());
    StaticMap::init_raw(phf::Map { key: hash_key, disps, entries: laid })
}

#[test]
fn ordered_map_lookup() {
    let m = ordered_table(vec![("a", 1), ("b", 2)]);
    assert_eq!(m.get("a"), Some(&1));
    assert_eq!(m.get("b"), Some(&2));
    assert_eq!(m.get("c"), None);
    assert_eq!(m.len(), 2);
    assert!(!m.is_empty());
    assert!(m.contains_key("a"));
    assert!(!m.contains_key("z"));
    assert_eq!(m.get_index("b"), Some(1));
    assert_eq!(m.get_key("a"), Some(&"a"));
    assert_eq!(m.get_entry("b"), Some((&"b", &2)));
}

#[test]
fn ordered_map_keeps_definition_order() {
    let m = ordered_table(vec![("z", 26), ("a", 1), ("m", 13)]);
    assert_eq!(m.keys(), vec![&"z", &"a", &"m"]);
    assert_eq!(m.values(), vec![&26, &1, &13]);
    assert_eq!(m.entries(), &[("z", 26), ("a", 1), ("m", 13)]);
    assert_eq!(m.index(1), Some((&"a", &1)));
    assert_eq!(m.index(3), None);
    for (i, k) in ["z", "a", "m"].iter().enumerate() {
        assert_eq!(m.get_index(k), Some(i));
    }
}

#[test]
fn unordered_map_lookup() {
    let m = unordered_table(vec![("first", 0), ("second", 1), ("third", 2)]);
    assert_eq!(m.get("first"), Some(&0));
    assert_eq!(m.get("second"), Some(&1));
    assert_eq!(m.get("third"), Some(&2));
    assert_eq!(m.get("fourth"), None);
    assert_eq!(m.len(), 3);
    assert!(m.contains_key("third"));
    assert_eq!(m.get_key("second"), Some(&"second"));
    let mut keys: Vec<&str> = m.keys().into_iter().copied().collect();
    keys.sort();
    assert_eq!(keys, vec!["first", "second", "third"]);
    assert_eq!(m.values().len(), 3);
    assert_eq!(m.entries().len(), 3);
}

#[test]
fn empty_tables_find_nothing() {
    let m: OrderedMap<&'static str, i32> =
        OrderedMap::init_raw(phf::OrderedMap { key: 0, disps: &[], idxs: &[], entries: &[] });
    assert!(m.is_empty());
    assert_eq!(m.get("a"), None);
    let s: StaticSet<&'static str> = StaticSet::init_raw(phf::Set { map: phf::Map { key: 0, disps: &[], entries: &[] } });
    assert!(s.is_empty());
    assert!(!s.contains("a"));
}

#[test]
fn sets_lookup_and_order() {
    let om = ordered_table(vec![("x", 0), ("y", 0)]);
    let ordered = OrderedSet::init_raw(phf::OrderedSet {
        map: phf::OrderedMap {
            key: om.map.key,
            disps: om.map.disps,
            idxs: om.map.idxs,
            entries: Box::leak(vec![("x", ()), ("y", ())].into_boxed_slice()),
        },
    });
    assert_eq!(ordered.len(), 2);
    assert_eq!(ordered.iter(), vec![&"x", &"y"]);
    assert!(ordered.contains("y"));
    assert!(!ordered.contains("w"));
    assert_eq!(ordered.get_key("x"), Some(&"x"));

    let um = unordered_table(vec![("p", 0), ("q", 0)]);
    let laid: Vec<(&'static str, ())> = um.map.entries.iter().map(|e| (e.0, ())).collect();
    let set = StaticSet::init_raw(phf::Set {
        map: phf::Map { key: um.map.key, disps: um.map.disps, entries: Box::leak(laid.into_boxed_slice()) },
    });
    assert!(set.contains("p"));
    assert!(set.contains("q"));
    assert!(!set.contains("r"));
    assert_eq!(set.iter().len(), 2);
}

#[test]
fn ordered_map_builder_expression() {
    let mut b = OrderedMapBuilder::new();
    b.entry("a".to_string(), &Value::I32(1));
    b.entry("b".to_string(), &Value::I32(2));
    let text = b.build().unwrap();
    assert!(text.starts_with("rustifact::OrderedMap { map: rustifact::phf::OrderedMap {"));
    let a = text.find("(\"a\", 1i32)").unwrap();
    let bpos = text.find("(\"b\", 2i32)").unwrap();
    assert!(a < bpos);
    assert_eq!(b.build().unwrap(), text);
}

#[test]
fn map_builder_expression() {
    let mut b = MapBuilder::new();
    b.entry("first".to_string(), &Value::Tuple(vec![Value::U32(0), Value::Str("abc".to_string())]));
    b.entry("second".to_string(), &Value::Tuple(vec![Value::U32(1), Value::Str("def".to_string())]));
    let text = b.build().unwrap();
    assert!(text.starts_with("rustifact::StaticMap { map: rustifact::phf::Map {"));
    assert!(text.contains("(\"first\", (0u32, \"abc\"))"));
    assert!(text.contains("(\"second\", (1u32, \"def\"))"));
}

#[test]
fn set_builder_expressions() {
    let mut s = SetBuilder::new();
    s.entry("x".to_string());
    s.entry("y".to_string());
    let text = s.build().unwrap();
    assert!(text.starts_with("rustifact::StaticSet { set: rustifact::phf::Set { map: rustifact::phf::Map {"));
    assert!(text.contains("(\"x\", ())"));
    let mut o = OrderedSetBuilder::new();
    o.entry("y".to_string());
    o.entry("x".to_string());
    let text = o.build().unwrap();
    assert!(text.starts_with("rustifact::OrderedSet { set: rustifact::phf::OrderedSet {"));
    assert!(text.find("(\"y\", ())").unwrap() < text.find("(\"x\", ())").unwrap());
}

#[test]
fn repeated_keys_are_reported() {
    let mut b = OrderedMapBuilder::new();
    b.entry("a".to_string(), &Value::I32(1));
    b.entry("b".to_string(), &Value::I32(2));
    b.entry("a".to_string(), &Value::I32(3));
    assert_eq!(b.build(), Err(BuildError::DuplicateKey("a".to_string())));
    let mut s = SetBuilder::new();
    s.entry("k".to_string());
    s.entry("k".to_string());
    assert_eq!(s.build(), Err(BuildError::DuplicateKey("k".to_string())));
}

#[test]
fn empty_builders_build() {
    let text = MapBuilder::new().build().unwrap();
    assert!(text.starts_with("rustifact::StaticMap { map: "));
}

#[test]
fn finished_tables_must_be_expressions() {
    assert_eq!(finish_table(TableKind::OrderedMap, "1 +"), Err(BuildError::Unparsable));
    assert_eq!(
        finish_table(TableKind::StaticSet, "t").unwrap(),
        "rustifact::StaticSet { set: t }"
    );
}

#[test]
fn ordered_table_text_ends_with_entries_in_order() {
    let mut b = OrderedMapBuilder::new();
    b.entry("b".to_string(), &Value::U8(2));
    b.entry("a".to_string(), &Value::U8(1));
    let text = b.build().unwrap();
    assert!(text.ends_with("\n    entries: &[\n        (\"b\", 2u8),\n        (\"a\", 1u8),\n    ],\n} }"));
    let mut s = OrderedSetBuilder::new();
    s.entry("q".to_string());
    let text = s.build().unwrap();
    assert!(text.ends_with("\n    entries: &[\n        (\"q\", ()),\n    ],\n} } }"));
}

#[test]
fn built_map_is_emitted_as_a_declaration() {
    let mut b = MapBuilder::new();
    b.entry("a".to_string(), &Value::I32(1));
    b.entry("b".to_string(), &Value::I32(2));
    let table = Value::Expr(b.build().unwrap());
    let unit = rustifact::artifact::Unit { out_dir: "/out".to_string(), package: "demo".to_string() };
    let e = rustifact::emit::write_binding(
        &unit,
        rustifact::emit::Binding::Static,
        "MAP",
        "rustifact::StaticMap<&'static str, i32>",
        &table,
    );
    assert_eq!(e.parse_error, None);
    assert!(e.contents.starts_with("static MAP: rustifact::StaticMap<&'static str, i32> = rustifact::StaticMap {"));
    assert!(e.contents.contains("(\"a\", 1i32)"));
    assert!(e.contents.contains("(\"b\", 2i32)"));
    let m = unordered_table(vec![("a", 1), ("b", 2)]);
    assert_eq!(m.get("a"), Some(&1));
    assert_eq!(m.get("c"), None);
    assert_eq!(m.len(), 2);
}

#[test]
fn every_listed_entry_is_found_again() {
    let m = unordered_table(vec![("one", 1), ("two", 2), ("three", 3), ("four", 4)]);
    for (k, v) in m.entries() {
        assert_eq!(m.get(k), Some(v));
        assert_eq!(m.get_entry(k), Some((k, v)));
    }
    let o = ordered_table(vec![("one", 1), ("two", 2), ("three", 3)]);
    for (i, (k, v)) in o.entries().iter().enumerate() {
        assert_eq!(o.get(k), Some(v));
        assert_eq!(o.get_index(k), Some(i));
    }
}

#[test]
fn building_twice_gives_the_same_text() {
    let make = || {
        let mut b = MapBuilder::new();
        b.entry("x".to_string(), &Value::U16(1));
        b.entry("y".to_string(), &Value::U16(2));
        b.entry("z".to_string(), &Value::U16(3));
        b
    };
    assert_eq!(make().build().unwrap(), make().build().unwrap());
    let mut s1 = SetBuilder::new();
    let mut s2 = SetBuilder::new();
    for k in ["p", "q"] {
        s1.entry(k.to_string());
        s2.entry(k.to_string());
    }
    assert_eq!(s1.build(), s2.build());
}

#[test]
fn empty_builders_give_empty_tables() {
    let text = MapBuilder::new().build().unwrap();
    assert!(text.ends_with("\n    entries: &[\n    ],\n} }"));
    let text = OrderedSetBuilder::new().build().unwrap();
    assert!(text.ends_with("\n    entries: &[\n    ],\n} } }"));
}

#[test]
fn well_formedness_checks() {
    let m = ordered_table(vec![("a", 1), ("b", 2)]);
    assert!(m.is_well_formed());
    let bad: OrderedMap<&'static str, i32> =
        OrderedMap::init_raw(phf::OrderedMap { key: 0, disps: &[(0, 0)], idxs: &[5], entries: &[("a", 1)] });
    assert!(!bad.is_well_formed());
    let no_entries: StaticMap<&'static str, i32> =
        StaticMap::init_raw(phf::Map { key: 0, disps: &[(0, 0)], entries: &[] });
    assert!(!no_entries.is_well_formed());
    let u = unordered_table(vec![("x", 1)]);
    assert!(u.is_well_formed());
    let s: StaticSet<&'static str> = StaticSet::init_raw(phf::Set { map: phf::Map { key: 0, disps: &[], entries: &[] } });
    assert!(s.is_well_formed());
    let o: OrderedSet<&'static str> = OrderedSet::init_raw(phf::OrderedSet {
        map: phf::OrderedMap { key: 0, disps: &[], idxs: &[], entries: &[] },
    });
    assert!(o.is_well_formed());
}
