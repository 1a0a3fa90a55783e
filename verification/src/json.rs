use vstd::prelude::*;

use crate::scalar::Scalar;

verus! {

/// The shape of a parsed reply as the vectorization engine reads it.
///
/// The engine only ever walks the container structure of a reply and reads
/// its numeric leaves, so this tree keeps exactly that: object member values
/// in the (deterministic) order the parser yields them, array elements in
/// array order, numbers as [`Scalar`] bit patterns, and the remaining leaf
/// kinds as bare tags.  Object keys and string contents are never read by
/// the engine and are not kept.
#[derive(Debug, PartialEq, Eq)]
pub enum JsonValue {
    Null,
    Bool(bool),
    Number(Scalar),
    Text,
    Array(Vec<JsonValue>),
    Object(Vec<JsonValue>),
}

/// The leaves of a JSON tree, depth first, left to right across containers:
/// an object or array contributes the leaves of its children in order, and
/// any other value is itself a leaf.
pub open spec fn spec_leaves(v: JsonValue) -> Seq<JsonValue>
    decreases v,
{
    match v {
        JsonValue::Array(elems) => spec_leaves_of_seq(elems@),
        JsonValue::Object(members) => spec_leaves_of_seq(members@),
        leaf => seq![leaf],
    }
}

/// The concatenated leaves of a sequence of JSON trees, in sequence order.
pub open spec fn spec_leaves_of_seq(s: Seq<JsonValue>) -> Seq<JsonValue>
    decreases s,
{
    if s.len() == 0 {
        Seq::empty()
    } else {
        spec_leaves_of_seq(s.drop_last()) + spec_leaves(s.last())
    }
}

/// The score a leaf stands for: a number is taken as it is, and every other
/// leaf kind (string, boolean, null) is taken as zero rather than rejected.
pub open spec fn spec_coerce(leaf: JsonValue) -> Scalar {
    match leaf {
        JsonValue::Number(s) => s,
        _ => Scalar::spec_zero(),
    }
}

/// The scores of a whole reply: its leaves, each coerced to a scalar.
pub open spec fn spec_scores(v: JsonValue) -> Seq<Scalar> {
    spec_leaves(v).map_values(|leaf: JsonValue| spec_coerce(leaf))
}

/// Collects every leaf value of the given JSON tree, depth first, left to
/// right across containers.
pub fn extract_leaf_values_recursively(value: &JsonValue) -> (r: Vec<JsonValue>)
    ensures
        r@ == spec_leaves(*value),
    decreases *value,
{
    match value {
        JsonValue::Array(elems) => extract_leaves_of_children(elems),
        JsonValue::Object(members) => extract_leaves_of_children(members),
        JsonValue::Null => {
            let mut r: Vec<JsonValue> = Vec::new();
            r.push(JsonValue::Null);
            r
        },
        JsonValue::Bool(b) => {
            let mut r: Vec<JsonValue> = Vec::new();
            r.push(JsonValue::Bool(*b));
            r
        },
        JsonValue::Number(s) => {
            let mut r: Vec<JsonValue> = Vec::new();
            r.push(JsonValue::Number(*s));
            r
        },
        JsonValue::Text => {
            let mut r: Vec<JsonValue> = Vec::new();
            r.push(JsonValue::Text);
            r
        },
    }
}

/// Collects the leaves of every child in order.
fn extract_leaves_of_children(children: &Vec<JsonValue>) -> (r: Vec<JsonValue>)
    ensures
        r@ == spec_leaves_of_seq(children@),
    decreases *children,
{
    let mut r: Vec<JsonValue> = Vec::new();
    let n: usize = children.len();
    for i in 0..n
        invariant
            n == children@.len(),
            r@ == spec_leaves_of_seq(children@.take(i as int)),
        decreases *children, n - i,
    {
        let mut sub: Vec<JsonValue> = extract_leaf_values_recursively(&children[i]);
        r.append(&mut sub);
        proof {
            assert(children@.take(i + 1).drop_last() =~= children@.take(i as int));
            assert(children@.take(i + 1).last() == children@[i as int]);
        }
    }
    proof {
        assert(children@.take(n as int) =~= children@);
    }
    r
}

/// Coerces one leaf to its score.
pub fn coerce_leaf(leaf: &JsonValue) -> (r: Scalar)
    ensures
        r == spec_coerce(*leaf),
{
    match leaf {
        JsonValue::Number(s) => *s,
        _ => Scalar::zero(),
    }
}

/// Coerces every leaf of a list to its score, in order.
pub fn coerce_leaves(leaves: &Vec<JsonValue>) -> (r: Vec<Scalar>)
    ensures
        r@ == leaves@.map_values(|leaf: JsonValue| spec_coerce(leaf)),
{
    let mut r: Vec<Scalar> = Vec::new();
    let n: usize = leaves.len();
    for i in 0..n
        invariant
            n == leaves@.len(),
            r@ == leaves@.take(i as int).map_values(|leaf: JsonValue| spec_coerce(leaf)),
    {
        r.push(coerce_leaf(&leaves[i]));
        proof {
            assert(leaves@.take(i + 1).map_values(|leaf: JsonValue| spec_coerce(leaf)) =~= leaves@
                .take(i as int)
                .map_values(|leaf: JsonValue| spec_coerce(leaf))
                .push(spec_coerce(leaves@[i as int])));
        }
    }
    proof {
        assert(leaves@.take(n as int) =~= leaves@);
    }
    r
}

} // verus!
