//! The dimensional type engine: the type of a nested container, with the length of
//! each fixed-size level taken from a sample, and the check that the sample is deep
//! enough for the requested dimension.
use vstd::prelude::*;
use crate::expr::{expr_text, to_expr, Value};
use crate::literal::{decimal, length_text};

verus! {

/// The deepest nesting of containers that generated declarations may have.
pub const MAX_DIM: usize = 16;

/// The dimension used when a caller names none: one flat container.
pub const DEFAULT_DIM: usize = 1;

/// Why a sample cannot stand for a container of the requested dimension.
#[derive(Debug, Clone, Copy, PartialEq, Eq, Structural)]
pub enum ShapeError {
    /// The dimension is 0 or above `MAX_DIM`.
    DimensionOutOfRange,
    /// The sample has fewer container levels than the dimension asks for.
    TooShallow,
}

/// How each container level of a nested sequence is written.
#[derive(Debug, Clone, Copy, PartialEq, Eq, Structural)]
pub enum SequenceKind {
    /// Fixed-size arrays: `[a, b]`, typed `[T; 2]`.
    Array,
    /// Growable vectors: `vec![a, b]`, typed `Vec<T>`.
    Vector,
}

pub open spec fn is_sequence(v: Value) -> bool {
    v is Array || v is Vector
}

/// The elements of a sequence value; empty for any other value.
pub open spec fn items_of(v: Value) -> Seq<Value> {
    match v {
        Value::Array(items) => items@,
        Value::Vector(items) => items@,
        _ => Seq::empty(),
    }
}

/// Whether `path` is a sequence of in-range indices leading down from `v`.
pub open spec fn path_ok(v: Value, path: Seq<int>) -> bool
    decreases path.len(),
{
    path.len() == 0 || (0 <= path[0] < items_of(v).len() && path_ok(
        items_of(v)[path[0]],
        path.drop_first(),
    ))
}

/// The value reached from `v` by following the indices of `path`.
pub open spec fn reach(v: Value, path: Seq<int>) -> Value
    decreases path.len(),
{
    if path.len() == 0 {
        v
    } else {
        reach(items_of(v)[path[0]], path.drop_first())
    }
}

/// `v` has `depth + 1` container levels: it is a sequence, and when `depth > 0` it is
/// non-empty and each of its elements has `depth` container levels.
pub open spec fn shape_ok(depth: nat, v: Value) -> bool
    decreases depth,
{
    is_sequence(v) && (depth == 0 || (items_of(v).len() > 0 && forall|i: int|
        0 <= i < items_of(v).len() ==> shape_ok((depth - 1) as nat, #[trigger] items_of(v)[i])))
}

pub open spec fn dimension_ok(dim: int) -> bool {
    1 <= dim <= MAX_DIM
}

/// The outcome of checking a sample against a requested dimension.
pub open spec fn shape_check(dim: int, sample: Value) -> Result<(), ShapeError> {
    if !dimension_ok(dim) {
        Err(ShapeError::DimensionOutOfRange)
    } else if !shape_ok((dim - 1) as nat, sample) {
        Err(ShapeError::TooShallow)
    } else {
        Ok(())
    }
}

/// The fixed-size array type of `depth + 1` levels over `elem`, each level's length
/// taken from the sample's first elements.
pub open spec fn array_type_text(elem: Seq<char>, depth: nat, v: Value) -> Seq<char>
    decreases depth,
{
    let inner = if depth == 0 {
        elem
    } else {
        array_type_text(elem, (depth - 1) as nat, items_of(v)[0])
    };
    "["@ + inner + "; "@ + decimal(items_of(v).len()) + "]"@
}

/// The vector type of `depth + 1` levels over `elem`.
pub open spec fn vector_type_text(elem: Seq<char>, depth: nat) -> Seq<char>
    decreases depth,
{
    let inner = if depth == 0 {
        elem
    } else {
        vector_type_text(elem, (depth - 1) as nat)
    };
    "Vec<"@ + inner + ">"@
}

pub open spec fn open_text(kind: SequenceKind) -> Seq<char> {
    match kind {
        SequenceKind::Array => "["@,
        SequenceKind::Vector => "vec!["@,
    }
}

/// The expression of `v` with its top `depth + 1` container levels written as `kind`;
/// deeper values are written as themselves.
pub open spec fn nested_text(kind: SequenceKind, depth: nat, v: Value) -> Seq<char>
    decreases depth, 1nat, 0nat,
{
    if is_sequence(v) {
        open_text(kind) + nested_list(kind, depth, items_of(v), items_of(v).len()) + "]"@
    } else {
        expr_text(v)
    }
}

/// The first `n` elements at one level, separated by `", "`.
pub open spec fn nested_list(kind: SequenceKind, depth: nat, items: Seq<Value>, n: nat) -> Seq<
    char,
>
    decreases depth, 0nat, n,
{
    if n == 0 || n > items.len() {
        Seq::empty()
    } else {
        let last = if depth == 0 {
            expr_text(items[n - 1])
        } else {
            nested_text(kind, (depth - 1) as nat, items[n - 1])
        };
        if n == 1 {
            last
        } else {
            nested_list(kind, depth, items, (n - 1) as nat) + ", "@ + last
        }
    }
}

/// The array type inferred for dimension `dim` is `[inner; n]`, where `n` is the
/// sample's length and `inner` is the element type for one dimension, or else the
/// type inferred for dimension `dim - 1` from the sample's first element; every
/// element passes the shape check for that dimension.
pub proof fn lemma_array_type_levels(elem: Seq<char>, dim: int, sample: Value)
    requires
        shape_check(dim, sample) is Ok,
    ensures
        dim == 1 ==> array_type_text(elem, 0, sample) == "["@ + elem + "; "@ + decimal(
            items_of(sample).len(),
        ) + "]"@,
        dim >= 2 ==> forall|i: int|
            0 <= i < items_of(sample).len() ==> #[trigger] shape_check(dim - 1, items_of(sample)[i]) is Ok,
        dim >= 2 ==> array_type_text(elem, (dim - 1) as nat, sample) == "["@ + array_type_text(
            elem,
            (dim - 2) as nat,
            items_of(sample)[0],
        ) + "; "@ + decimal(items_of(sample).len()) + "]"@,
{
}

proof fn lemma_reached_nonempty(depth: nat, v: Value, path: Seq<int>)
    requires
        shape_ok(depth, v),
        path_ok(v, path),
        path.len() < depth,
    ensures
        is_sequence(reach(v, path)),
        items_of(reach(v, path)).len() > 0,
    decreases path.len(),
{
    if path.len() > 0 {
        let next = items_of(v)[path[0]];
        assert(shape_ok((depth - 1) as nat, next));
        lemma_reached_nonempty((depth - 1) as nat, next, path.drop_first());
    }
}

/// A sample fails the shape check as too shallow when any container at a level above
/// the innermost of the requested dimension is empty.
pub proof fn lemma_empty_level_too_shallow(dim: int, sample: Value, path: Seq<int>)
    requires
        dimension_ok(dim),
        path_ok(sample, path),
        path.len() + 1 < dim,
        items_of(reach(sample, path)).len() == 0,
    ensures
        shape_check(dim, sample) == Err::<(), ShapeError>(ShapeError::TooShallow),
{
    if shape_ok((dim - 1) as nat, sample) {
        lemma_reached_nonempty((dim - 1) as nat, sample, path);
    }
}

fn sequence_items(v: &Value) -> (r: Option<&Vec<Value>>)
    ensures
        r is Some <==> is_sequence(*v),
        r matches Some(items) ==> items@ == items_of(*v),
{
    match v {
        Value::Array(items) => Some(items),
        Value::Vector(items) => Some(items),
        _ => None,
    }
}

fn shape_holds(depth: usize, v: &Value) -> (r: bool)
    ensures
        r == shape_ok(depth as nat, *v),
    decreases depth,
{
    match sequence_items(v) {
        None => false,
        Some(items) => {
            if depth == 0 {
                return true;
            }
            if items.len() == 0 {
                return false;
            }
            let mut i: usize = 0;
            while i < items.len()
                invariant
                    depth > 0,
                    is_sequence(*v),
                    items@ == items_of(*v),
                    i <= items@.len(),
                    forall|j: int| 0 <= j < i ==> #[trigger] shape_ok((depth - 1) as nat, items@[j]),
                decreases items@.len() - i,
            {
                if !shape_holds(depth - 1, &items[i]) {
                    return false;
                }
                i = i + 1;
            }
            assert forall|j: int| 0 <= j < items_of(*v).len() implies shape_ok(
                (depth as nat - 1) as nat,
                #[trigger] items_of(*v)[j],
            ) by {
                assert(shape_ok((depth - 1) as nat, items@[j]));
            }
            true
        },
    }
}

/// Checks that `sample` can stand for a container of dimension `dim`: the dimension
/// lies in `1..=MAX_DIM`, every value down to level `dim - 1` is a container, and no
/// container above the innermost level is empty.
pub fn assert_shape(dim: usize, sample: &Value) -> (r: Result<(), ShapeError>)
    ensures
        r == shape_check(dim as int, *sample),
{
    if dim < 1 || dim > MAX_DIM {
        Err(ShapeError::DimensionOutOfRange)
    } else if !shape_holds(dim - 1, sample) {
        Err(ShapeError::TooShallow)
    } else {
        Ok(())
    }
}

fn array_type_rec(elem: &str, depth: usize, v: &Value) -> (r: String)
    requires
        shape_ok(depth as nat, *v),
    ensures
        r@ == array_type_text(elem@, depth as nat, *v),
    decreases depth,
{
    let items = match sequence_items(v) {
        Some(items) => items,
        None => {
            return String::new();
        },
    };
    let inner = if depth == 0 {
        String::from_str(elem)
    } else {
        assert(shape_ok((depth - 1) as nat, items@[0]));
        array_type_rec(elem, depth - 1, &items[0])
    };
    let len = length_text(items.len());
    let mut r = String::from_str("[");
    r.append(inner.as_str());
    r.append("; ");
    r.append(len.as_str());
    r.append("]");
    r
}

/// The fixed-size array type of dimension `dim` over `elem`: `[[T; n1]; n0]` where
/// `n0` is the sample's length and `n1` that of its first element.
pub fn array_type(elem: &str, dim: usize, sample: &Value) -> (r: String)
    requires
        shape_check(dim as int, *sample) is Ok,
    ensures
        r@ == array_type_text(elem@, (dim - 1) as nat, *sample),
{
    array_type_rec(elem, dim - 1, sample)
}

/// The vector type of dimension `dim` over `elem`: `Vec<Vec<T>>` for two levels.
pub fn vector_type(elem: &str, dim: usize) -> (r: String)
    requires
        dimension_ok(dim as int),
    ensures
        r@ == vector_type_text(elem@, (dim - 1) as nat),
{
    let mut r = String::from_str(elem);
    let mut d: usize = 0;
    while d < dim
        invariant
            dim <= MAX_DIM,
            0 <= d <= dim,
            d == 0 ==> r@ == elem@,
            d > 0 ==> r@ == vector_type_text(elem@, (d - 1) as nat),
        decreases dim - d,
    {
        let mut next = String::from_str("Vec<");
        next.append(r.as_str());
        next.append(">");
        r = next;
        d = d + 1;
    }
    r
}

/// The expression of `sample` with its top `dim` container levels written as `kind`.
pub fn nested_expr(kind: SequenceKind, dim: usize, sample: &Value) -> (r: String)
    requires
        dimension_ok(dim as int),
    ensures
        r@ == nested_text(kind, (dim - 1) as nat, *sample),
{
    nested_rec(kind, dim - 1, sample)
}

fn nested_rec(kind: SequenceKind, depth: usize, v: &Value) -> (r: String)
    ensures
        r@ == nested_text(kind, depth as nat, *v),
    decreases depth, 1nat,
{
    match sequence_items(v) {
        None => to_expr(v),
        Some(items) => {
            let mut r = match kind {
                SequenceKind::Array => String::from_str("["),
                SequenceKind::Vector => String::from_str("vec!["),
            };
            nested_items(kind, depth, items, &mut r);
            r.append("]");
            r
        },
    }
}

fn nested_items(kind: SequenceKind, depth: usize, items: &Vec<Value>, out: &mut String)
    ensures
        final(out)@ == old(out)@ + nested_list(kind, depth as nat, items@, items@.len()),
    decreases depth, 0nat,
{
    let n = items.len();
    let mut i: usize = 0;
    while i < n
        invariant
            n == items@.len(),
            i <= n,
            out@ == old(out)@ + nested_list(kind, depth as nat, items@, i as nat),
        decreases n - i,
    {
        let t = if depth == 0 {
            to_expr(&items[i])
        } else {
            nested_rec(kind, depth - 1, &items[i])
        };
        if i > 0 {
            out.append(", ");
        }
        out.append(t.as_str());
        i = i + 1;
        assert(out@ == old(out)@ + nested_list(kind, depth as nat, items@, i as nat));
    }
}

} // verus!
