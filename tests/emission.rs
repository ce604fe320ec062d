use rustifact::artifact::{init_path_for, path_for, Unit, Visibility};
use rustifact::dims::ShapeError;
use rustifact::emit::{
    allow_export, emit, write_array, write_binding, write_fn, write_group, write_struct,
    write_struct_uniform, write_struct_uniform_init, write_vector_fn, ArrayDecl, Binding, Field,
    GroupKind,
};
use rustifact::expr::Value;
use rustifact::allow_export_error;

fn unit() -> Unit {
    Unit { out_dir: "/out".to_string(), package: "demo".to_string() }
}

#[test]
fn paths_follow_the_naming_scheme() {
    let u = unit();
    assert_eq!(path_for(&u, "FOO", Visibility::Private), "/out/rustifact_demo_FOO.rs");
    assert_eq!(path_for(&u, "FOO", Visibility::Public), "/out/rustifact__pub__demo_FOO.rs");
    assert_eq!(init_path_for(&u, "Foo", "Init"), "/out/rustifact_demo_Foo_Init.rs");
}

#[test]
fn constant_answer() {
    let value = Value::Opt(Some(Box::new(Value::I32(42))));
    let e = write_binding(&unit(), Binding::Const, "ANSWER", "Option<i32>", &value);
    assert_eq!(e.path, "/out/rustifact_demo_ANSWER.rs");
    assert_eq!(e.parse_error, None);
    assert_eq!(e.contents, "const ANSWER: Option<i32> = Some(42i32);");
    assert_eq!(e.failure_message(), None);
}

#[test]
fn static_binding() {
    let e = write_binding(&unit(), Binding::Static, "NAME", "&'static str", &Value::Str("x".to_string()));
    assert_eq!(e.contents, "static NAME: &'static str = \"x\";");
}

#[test]
fn grid_array() {
    let grid = Value::Array(vec![
        Value::Array(vec![Value::U32(0), Value::U32(1)]),
        Value::Array(vec![Value::U32(1), Value::U32(2)]),
    ]);
    let e = write_array(&unit(), ArrayDecl::Static, "GRID", "u32", 2, &grid).unwrap();
    assert_eq!(e.path, "/out/rustifact_demo_GRID.rs");
    assert!(e.contents.contains("static GRID: [[u32; 2]; 2]"));
    assert!(e.contents.contains("[[0u32, 1u32], [1u32, 2u32]]"));
    assert_eq!(e.parse_error, None);
}

#[test]
fn empty_sample_fails_as_too_shallow() {
    let empty = Value::Array(vec![]);
    let r = write_array(&unit(), ArrayDecl::Const, "GRID", "u32", 2, &empty);
    assert_eq!(r.err(), Some(ShapeError::TooShallow));
    let r = write_vector_fn(&unit(), "grid", "u32", 2, &empty);
    assert_eq!(r.err(), Some(ShapeError::TooShallow));
}

#[test]
fn array_function_and_vector_function() {
    let s = Value::Array(vec![Value::U8(1), Value::U8(2)]);
    let e = write_array(&unit(), ArrayDecl::Function, "get", "u8", 1, &s).unwrap();
    assert!(e.contents.contains("fn get() -> [u8; 2]"));
    assert!(e.contents.contains("[1u8, 2u8]"));
    let e = write_vector_fn(&unit(), "get_vec", "u8", 1, &s).unwrap();
    assert!(e.contents.contains("fn get_vec() -> Vec<u8>"));
    assert!(e.contents.contains("vec![1u8, 2u8]"));
}

#[test]
fn function_binding() {
    let v = Value::Vector(vec![Value::Vector(vec![Value::U32(1)])]);
    let e = write_fn(&unit(), "get_vecs", "Vec<Vec<u32>>", &v);
    assert!(e.contents.contains("fn get_vecs() -> Vec<Vec<u32>>"));
    assert!(e.contents.contains("vec![vec![1u32]]"));
    assert_eq!(e.parse_error, None);
}

#[test]
fn emission_is_repeatable() {
    let value = Value::Tuple(vec![Value::U8(1), Value::Str("a".to_string())]);
    let first = write_binding(&unit(), Binding::Const, "PAIR", "(u8, &str)", &value);
    let second = write_binding(&unit(), Binding::Const, "PAIR", "(u8, &str)", &value);
    assert_eq!(first.path, second.path);
    assert_eq!(first.contents, second.contents);
}

#[test]
fn parsed_text_is_kept_as_composed() {
    let e = emit("X", "/p".to_string(), "const   X : u8 =   1u8 ;".to_string());
    assert_eq!(e.contents, "const   X : u8 =   1u8 ;");
    assert_eq!(e.parse_error, None);
    assert_eq!(e.symbol, "X");
}

#[test]
fn unusual_types_do_not_abort_the_check() {
    let e = write_binding(&unit(), Binding::Static, "X", "dyn* Foo", &Value::I32(1));
    assert_eq!(e.contents, "static X: dyn* Foo = 1i32;");
}

#[test]
fn unparsable_text_is_kept_and_reported() {
    let raw = "const X: = ;".to_string();
    let e = emit("X", "/out/x.rs".to_string(), raw.clone());
    assert_eq!(e.contents, raw);
    assert!(e.parse_error.is_some());
    let msg = e.failure_message().unwrap();
    assert!(msg.starts_with("Failed to pretty-print X due to parse error: '"));
    assert!(msg.ends_with("Unformatted output has been written to /out/x.rs"));
}

#[test]
fn groups_of_declarations() {
    let items = vec![("A".to_string(), Value::U8(1)), ("B".to_string(), Value::U8(2))];
    let e = write_group(&unit(), GroupKind::Const, Visibility::Public, "LIMITS", "u8", &items);
    assert_eq!(e.path, "/out/rustifact_demo_LIMITS.rs");
    assert_eq!(e.contents, "pub const A: u8 = 1u8;\npub const B: u8 = 2u8;\n");
    let e = write_group(&unit(), GroupKind::Static, Visibility::Private, "S", "u8", &items);
    assert_eq!(e.contents, "static A: u8 = 1u8;\nstatic B: u8 = 2u8;\n");
    let e = write_group(&unit(), GroupKind::Function, Visibility::Private, "F", "u8", &items);
    assert!(e.contents.contains("fn A() -> u8"));
    assert!(e.contents.contains("fn B() -> u8"));
}

#[test]
fn struct_definitions() {
    let fields = vec![
        Field { public: true, name: "field_a".to_string(), ty: "Vec<u32>".to_string() },
        Field { public: false, name: "field_d".to_string(), ty: "i64".to_string() },
    ];
    let e = write_struct(&unit(), Visibility::Private, "Foo", &fields).unwrap();
    assert!(e.contents.contains("struct Foo {"));
    assert!(e.contents.contains("pub field_a: Vec<u32>,"));
    assert!(e.contents.contains("field_d: i64,"));
    assert!(!e.contents.contains("pub struct"));
}

#[test]
fn struct_with_bad_field_type() {
    let fields = vec![
        Field { public: true, name: "a".to_string(), ty: "u32".to_string() },
        Field { public: true, name: "b".to_string(), ty: "Vec<".to_string() },
        Field { public: true, name: "c".to_string(), ty: "+".to_string() },
    ];
    assert_eq!(write_struct(&unit(), Visibility::Public, "Foo", &fields).err(), Some(1));
}

#[test]
fn uniform_struct_and_initialiser() {
    let fields = vec![(true, "field_a".to_string()), (false, "field_b".to_string())];
    let e = write_struct_uniform(&unit(), Visibility::Public, "Foo", "(u32, &'static str)", &fields);
    assert!(e.contents.contains("pub struct Foo {"));
    assert!(e.contents.contains("pub field_a: (u32, &'static str),"));
    let items = vec![
        ("field_a".to_string(), Value::Tuple(vec![Value::U32(0), Value::Str("abc".to_string())])),
        ("field_b".to_string(), Value::Tuple(vec![Value::U32(1), Value::Str("def".to_string())])),
    ];
    let e = write_struct_uniform_init(&unit(), "Foo", "Init", &items);
    assert_eq!(e.path, "/out/rustifact_demo_Foo_Init.rs");
    assert_eq!(e.symbol, "Foo_Init");
    assert_eq!(e.contents, "Foo { field_a: (0u32, \"abc\"), field_b: (1u32, \"def\"), }");
    assert_eq!(e.parse_error, None);
}

#[test]
fn export_needs_the_private_artifact() {
    let r = allow_export(&unit(), "FOO", None);
    assert_eq!(
        r.err(),
        Some(
            "Couldn't find symbol FOO to setup export.Ensure you call write_static (or another write_... function)for FOO before allow_export"
                .to_string()
        )
    );
    assert_eq!(allow_export_error("FOO").len(), 128);
}

#[test]
fn export_reemits_under_the_public_path() {
    let private = "static FOO: &'static str = \"I'm exportable\";\n".to_string();
    let e = allow_export(&unit(), "FOO", Some(private)).unwrap();
    assert_eq!(e.path, "/out/rustifact__pub__demo_FOO.rs");
    assert_eq!(e.contents, "pub static FOO: &'static str = \"I'm exportable\";\n");
}
