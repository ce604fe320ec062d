//! The expression serializer: a value becomes the text of an expression that
//! rebuilds it in a constant context.
use vstd::prelude::*;
use crate::literal::{char_literal, int_text, lemma_int_round_trip, read_int, quoted_char, quoted_str, signed_digits, string_literal, unsigned_digits};

verus! {

/// A value to be written into generated source.
pub enum Value {
    I8(i8),
    I16(i16),
    I32(i32),
    I64(i64),
    I128(i128),
    Isize(isize),
    U8(u8),
    U16(u16),
    U32(u32),
    U64(u64),
    U128(u128),
    Usize(usize),
    Bool(bool),
    Char(char),
    /// Text, written as a string slice literal.
    Str(String),
    Opt(Option<Box<Value>>),
    Tuple(Vec<Value>),
    /// A sequence of fixed length: `[a, b]`.
    Array(Vec<Value>),
    /// A growable sequence: `vec![a, b]`.
    Vector(Vec<Value>),
    /// A value of a composite type, as the expression that its own type produced.
    Expr(String),
}

/// `parts` separated by `", "`.
pub open spec fn comma_join(parts: Seq<Seq<char>>) -> Seq<char>
    decreases parts.len(),
{
    if parts.len() == 0 {
        Seq::empty()
    } else if parts.len() == 1 {
        parts[0]
    } else {
        comma_join(parts.drop_last()) + ", "@ + parts.last()
    }
}

/// The expression text of an integer with its type suffix.
pub open spec fn suffixed(i: int, suffix: Seq<char>) -> Seq<char> {
    int_text(i) + suffix
}

/// The expression that `v` is written as.
pub open spec fn expr_text(v: Value) -> Seq<char>
    decreases v, 0nat,
{
    match v {
        Value::I8(n) => suffixed(n as int, "i8"@),
        Value::I16(n) => suffixed(n as int, "i16"@),
        Value::I32(n) => suffixed(n as int, "i32"@),
        Value::I64(n) => suffixed(n as int, "i64"@),
        Value::I128(n) => suffixed(n as int, "i128"@),
        Value::Isize(n) => suffixed(n as int, "isize"@),
        Value::U8(n) => suffixed(n as int, "u8"@),
        Value::U16(n) => suffixed(n as int, "u16"@),
        Value::U32(n) => suffixed(n as int, "u32"@),
        Value::U64(n) => suffixed(n as int, "u64"@),
        Value::U128(n) => suffixed(n as int, "u128"@),
        Value::Usize(n) => suffixed(n as int, "usize"@),
        Value::Bool(b) => if b { "true"@ } else { "false"@ },
        Value::Char(c) => char_literal(c),
        Value::Str(s) => string_literal(s@),
        Value::Opt(o) => match o {
            Some(inner) => "Some("@ + expr_text(*inner) + ")"@,
            None => "None"@,
        },
        Value::Tuple(items) => if items@.len() == 1 {
            "("@ + list_text(items@, 1) + ",)"@
        } else {
            "("@ + list_text(items@, items@.len()) + ")"@
        },
        Value::Array(items) => "["@ + list_text(items@, items@.len()) + "]"@,
        Value::Vector(items) => "vec!["@ + list_text(items@, items@.len()) + "]"@,
        Value::Expr(e) => e@,
    }
}

/// The first `n` items' expressions, separated by `", "`.
pub open spec fn list_text(items: Seq<Value>, n: nat) -> Seq<char>
    decreases items, n,
{
    if n == 0 || n > items.len() {
        Seq::empty()
    } else if n == 1 {
        expr_text(items[0])
    } else {
        list_text(items, (n - 1) as nat) + ", "@ + expr_text(items[n - 1])
    }
}

/// The expression of each item, in order.
pub open spec fn item_texts(items: Seq<Value>) -> Seq<Seq<char>> {
    Seq::new(items.len(), |i: int| expr_text(items[i]))
}

proof fn lemma_list_text_join(items: Seq<Value>, n: nat)
    requires
        n <= items.len(),
    ensures
        list_text(items, n) == comma_join(item_texts(items).take(n as int)),
    decreases n,
{
    if n > 1 {
        lemma_list_text_join(items, (n - 1) as nat);
        assert(item_texts(items).take(n as int).drop_last() =~= item_texts(items).take(n - 1));
    } else if n == 1 {
        assert(item_texts(items).take(1) =~= seq![expr_text(items[0])]);
    } else {
        assert(item_texts(items).take(0) =~= Seq::<Seq<char>>::empty());
    }
}

/// Serialization keeps a tuple's slots in order: a tuple of 2 to 12 slots is written
/// as the expression of each slot, in order, separated by commas, in parentheses.
pub proof fn lemma_tuple_slot_order(v: Value)
    requires
        v is Tuple,
        2 <= v->Tuple_0@.len() <= 12,
    ensures
        expr_text(v) == "("@ + comma_join(item_texts(v->Tuple_0@)) + ")"@,
        forall|i: int|
            0 <= i < v->Tuple_0@.len() ==> #[trigger] item_texts(v->Tuple_0@)[i] == expr_text(
                v->Tuple_0@[i],
            ),
{
    let items = v->Tuple_0@;
    lemma_list_text_join(items, items.len());
    assert(item_texts(items).take(items.len() as int) =~= item_texts(items));
}

/// Sequences keep their elements in order: an array is written as the expression of
/// each element, in order, separated by commas, in brackets; a vector likewise inside
/// `vec![..]`.
pub proof fn lemma_sequence_order(v: Value)
    requires
        v is Array || v is Vector,
    ensures
        v is Array ==> expr_text(v) == "["@ + comma_join(item_texts(v->Array_0@)) + "]"@,
        v is Vector ==> expr_text(v) == "vec!["@ + comma_join(item_texts(v->Vector_0@)) + "]"@,
{
    if v is Array {
        let items = v->Array_0@;
        lemma_list_text_join(items, items.len());
        assert(item_texts(items).take(items.len() as int) =~= item_texts(items));
    } else {
        let items = v->Vector_0@;
        lemma_list_text_join(items, items.len());
        assert(item_texts(items).take(items.len() as int) =~= item_texts(items));
    }
}

/// An integer is written as a literal that reads back as the same integer, followed by
/// the name of its type.
pub proof fn lemma_integer_literal(v: Value)
    requires
        is_integer(v),
    ensures
        expr_text(v) == int_text(int_value(v)) + int_suffix(v),
        read_int(int_text(int_value(v))) == int_value(v),
{
    lemma_int_round_trip(int_value(v));
}

pub open spec fn is_integer(v: Value) -> bool {
    v is I8 || v is I16 || v is I32 || v is I64 || v is I128 || v is Isize || v is U8 || v is U16
        || v is U32 || v is U64 || v is U128 || v is Usize
}

/// The type suffix written after an integer's digits.
pub open spec fn int_suffix(v: Value) -> Seq<char> {
    match v {
        Value::I8(_) => "i8"@,
        Value::I16(_) => "i16"@,
        Value::I32(_) => "i32"@,
        Value::I64(_) => "i64"@,
        Value::I128(_) => "i128"@,
        Value::Isize(_) => "isize"@,
        Value::U8(_) => "u8"@,
        Value::U16(_) => "u16"@,
        Value::U32(_) => "u32"@,
        Value::U64(_) => "u64"@,
        Value::U128(_) => "u128"@,
        Value::Usize(_) => "usize"@,
        _ => Seq::empty(),
    }
}

/// The number held by an integer value.
pub open spec fn int_value(v: Value) -> int {
    match v {
        Value::I8(n) => n as int,
        Value::I16(n) => n as int,
        Value::I32(n) => n as int,
        Value::I64(n) => n as int,
        Value::I128(n) => n as int,
        Value::Isize(n) => n as int,
        Value::U8(n) => n as int,
        Value::U16(n) => n as int,
        Value::U32(n) => n as int,
        Value::U64(n) => n as int,
        Value::U128(n) => n as int,
        Value::Usize(n) => n as int,
        _ => 0,
    }
}

fn int_expr(n: i128, suffix: &str) -> (r: String)
    ensures
        r@ == suffixed(n as int, suffix@),
{
    let digits = signed_digits(n);
    digits.concat(suffix)
}

fn uint_expr(n: u128, suffix: &str) -> (r: String)
    ensures
        r@ == suffixed(n as int, suffix@),
{
    let digits = unsigned_digits(n);
    digits.concat(suffix)
}

/// Appends the expressions of `items`, separated by `", "`, to `out`.
fn push_items(items: &Vec<Value>, out: &mut String)
    ensures
        final(out)@ == old(out)@ + list_text(items@, items@.len()),
    decreases items, 0nat,
{
    let n = items.len();
    let mut i: usize = 0;
    while i < n
        invariant
            n == items@.len(),
            i <= n,
            out@ == old(out)@ + list_text(items@, i as nat),
        decreases n - i,
    {
        proof {
            assert(decreases_to!(items => items@[i as int]));
        }
        let t = to_expr(&items[i]);
        if i > 0 {
            out.append(", ");
        }
        out.append(t.as_str());
        i = i + 1;
        assert(out@ == old(out)@ + list_text(items@, i as nat));
    }
}

/// The expression text that rebuilds `v`.
pub fn to_expr(v: &Value) -> (r: String)
    ensures
        r@ == expr_text(*v),
    decreases v, 1nat,
{
    match v {
        Value::I8(n) => int_expr(*n as i128, "i8"),
        Value::I16(n) => int_expr(*n as i128, "i16"),
        Value::I32(n) => int_expr(*n as i128, "i32"),
        Value::I64(n) => int_expr(*n as i128, "i64"),
        Value::I128(n) => int_expr(*n, "i128"),
        Value::Isize(n) => int_expr(*n as i128, "isize"),
        Value::U8(n) => uint_expr(*n as u128, "u8"),
        Value::U16(n) => uint_expr(*n as u128, "u16"),
        Value::U32(n) => uint_expr(*n as u128, "u32"),
        Value::U64(n) => uint_expr(*n as u128, "u64"),
        Value::U128(n) => uint_expr(*n, "u128"),
        Value::Usize(n) => uint_expr(*n as u128, "usize"),
        Value::Bool(b) => if *b {
            String::from_str("true")
        } else {
            String::from_str("false")
        },
        Value::Char(c) => quoted_char(*c),
        Value::Str(s) => quoted_str(s.as_str()),
        Value::Opt(o) => match o {
            Some(inner) => {
                let t = to_expr(inner);
                let mut r = String::from_str("Some(");
                r.append(t.as_str());
                r.append(")");
                r
            },
            None => String::from_str("None"),
        },
        Value::Tuple(items) => {
            let mut r = String::from_str("(");
            push_items(items, &mut r);
            if items.len() == 1 {
                r.append(",)");
            } else {
                r.append(")");
            }
            r
        },
        Value::Array(items) => {
            let mut r = String::from_str("[");
            push_items(items, &mut r);
            r.append("]");
            r
        },
        Value::Vector(items) => {
            let mut r = String::from_str("vec![");
            push_items(items, &mut r);
            r.append("]");
            r
        },
        Value::Expr(e) => e.clone(),
    }
}

} // verus!
