//! Runtime values: a tagged union over numbers, strings, booleans, nil
//! and arrays, together with its mathematical model and the structural
//! operations the evaluator needs (truthiness, equality, rendering).

use crate::common::number::{
    eq_numbers, ieee_eq, number_text, number_to_text,
};
use vstd::prelude::*;

verus! {

/// The mathematical model of a runtime value.  Numbers are the 64-bit
/// encodings of IEEE-754 doubles.
pub enum Value {
    Number(u64),
    Str(Seq<char>),
    Boolean(bool),
    Nil,
    Array(Seq<Value>),
}

/// A runtime value.  Values have value semantics: they are cloned, never
/// shared, and no builtin mutates its argument in place.
#[derive(Debug)]
pub enum Object {
    Number(u64),
    Str(String),
    Boolean(bool),
    Nil,
    Array(Vec<Object>),
}

/// The model of an exec value.
pub open spec fn obj_view(o: Object) -> Value
    decreases o,
{
    match o {
        Object::Number(b) => Value::Number(b),
        Object::Str(s) => Value::Str(s@),
        Object::Boolean(b) => Value::Boolean(b),
        Object::Nil => Value::Nil,
        Object::Array(v) => Value::Array(
            Seq::new(
                v@.len(),
                |i: int|
                    if 0 <= i < v@.len() {
                        obj_view(v@[i])
                    } else {
                        Value::Nil
                    },
            ),
        ),
    }
}

impl View for Object {
    type V = Value;

    open spec fn view(&self) -> Value {
        obj_view(*self)
    }
}

/// The model of a sequence of exec values.
pub open spec fn seq_view(s: Seq<Object>) -> Seq<Value> {
    Seq::new(
        s.len(),
        |i: int|
            if 0 <= i < s.len() {
                obj_view(s[i])
            } else {
                Value::Nil
            },
    )
}

/// Truthiness: `false` and nil are falsy; every other value is truthy.
pub open spec fn is_truthy(v: Value) -> bool {
    match v {
        Value::Boolean(b) => b,
        Value::Nil => false,
        _ => true,
    }
}

/// Structural equality of values: same variant and equal payload, with
/// IEEE-754 equality on numbers; values of different variants are never
/// equal.
pub open spec fn values_equal(a: Value, b: Value) -> bool
    decreases a,
{
    match (a, b) {
        (Value::Number(x), Value::Number(y)) => ieee_eq(x, y),
        (Value::Str(x), Value::Str(y)) => x == y,
        (Value::Boolean(x), Value::Boolean(y)) => x == y,
        (Value::Nil, Value::Nil) => true,
        (Value::Array(x), Value::Array(y)) => x.len() == y.len() && (forall|i: int|
            0 <= i < x.len() ==> values_equal(#[trigger] x[i], y[i])),
        _ => false,
    }
}

/// The canonical rendering of a value: numbers in decimal, strings
/// unquoted, booleans as `true`/`false`, nil as `nil`, arrays as a
/// bracketed, comma-separated list of their elements' renderings.
pub open spec fn value_text(v: Value) -> Seq<char>
    decreases v,
{
    match v {
        Value::Number(b) => number_text(b),
        Value::Str(s) => s,
        Value::Boolean(b) => if b {
            "true"@
        } else {
            "false"@
        },
        Value::Nil => "nil"@,
        Value::Array(items) => "["@ + items_text(items) + "]"@,
    }
}

/// The renderings of the elements of an array, joined with `", "`.
pub open spec fn items_text(items: Seq<Value>) -> Seq<char>
    decreases items,
{
    if items.len() == 0 {
        Seq::empty()
    } else if items.len() == 1 {
        value_text(items[0])
    } else {
        value_text(items[0]) + ", "@ + items_text(items.drop_first())
    }
}

/// Appending one element to an array appends `", "` and its rendering
/// to the joined rendering (or is just its rendering for a first
/// element).
pub proof fn lemma_items_text_push(items: Seq<Value>, v: Value)
    ensures
        items_text(items.push(v)) == if items.len() == 0 {
            value_text(v)
        } else {
            items_text(items) + ", "@ + value_text(v)
        },
    decreases items.len(),
{
    let p = items.push(v);
    if items.len() == 0 {
        assert(p.len() == 1);
        assert(p[0] == v);
    } else {
        assert(p.drop_first() =~= items.drop_first().push(v));
        lemma_items_text_push(items.drop_first(), v);
        if items.len() == 1 {
            assert(items_text(items) == value_text(items[0]));
            assert(p[0] == items[0]);
        } else {
            assert(p[0] == items[0]);
            assert(items_text(p) == value_text(items[0]) + ", "@ + items_text(p.drop_first()));
            assert(items_text(items) + ", "@ + value_text(v) == value_text(items[0]) + ", "@
                + (items_text(items.drop_first()) + ", "@ + value_text(v))) by {
                assert((value_text(items[0]) + ", "@ + items_text(items.drop_first())) + ", "@
                    + value_text(v) =~= value_text(items[0]) + ", "@ + (items_text(
                    items.drop_first(),
                ) + ", "@ + value_text(v)));
            }
        }
    }
}

impl Object {
    /// Truthiness of this value.
    pub fn is_true(&self) -> (r: bool)
        ensures
            r == is_truthy(self@),
    {
        match self {
            Object::Boolean(b) => *b,
            Object::Nil => false,
            _ => true,
        }
    }
}

/// Structural equality of two runtime values.
pub fn object_equals(a: &Object, b: &Object) -> (r: bool)
    ensures
        r == values_equal(a@, b@),
    decreases *a,
{
    match (a, b) {
        (Object::Number(x), Object::Number(y)) => eq_numbers(*x, *y),
        (Object::Str(x), Object::Str(y)) => x.eq(y),
        (Object::Boolean(x), Object::Boolean(y)) => x == y,
        (Object::Nil, Object::Nil) => true,
        (Object::Array(x), Object::Array(y)) => {
            if x.len() != y.len() {
                return false;
            }
            let n = x.len();
            let mut i: usize = 0;
            while i < n
                invariant
                    n == x@.len(),
                    n == y@.len(),
                    i <= n,
                    forall|j: int| 0 <= j < i ==> values_equal(obj_view(#[trigger] x@[j]), obj_view(y@[j])),
                    *a == Object::Array(*x),
                    *b == Object::Array(*y),
                decreases n - i,
            {
                proof {
                    assert(decreases_to!(*a => x@[i as int]));
                }
                if !object_equals(&x[i], &y[i]) {
                    assert(!values_equal(a@->Array_0[i as int], b@->Array_0[i as int]));
                    return false;
                }
                i = i + 1;
            }
            assert forall|j: int| 0 <= j < a@->Array_0.len() implies values_equal(
                #[trigger] a@->Array_0[j],
                b@->Array_0[j],
            ) by {
                assert(values_equal(obj_view(x@[j]), obj_view(y@[j])));
            }
            true
        },
        _ => false,
    }
}

/// The canonical rendering of a runtime value.
pub fn object_text(o: &Object) -> (r: String)
    ensures
        r@ == value_text(o@),
    decreases *o,
{
    match o {
        Object::Number(b) => number_to_text(*b),
        Object::Str(s) => s.clone(),
        Object::Boolean(b) => {
            if *b {
                String::from_str("true")
            } else {
                String::from_str("false")
            }
        },
        Object::Nil => String::from_str("nil"),
        Object::Array(v) => {
            let ghost items = o@->Array_0;
            let mut out = String::from_str("[");
            let n = v.len();
            let mut i: usize = 0;
            while i < n
                invariant
                    n == v@.len(),
                    i <= n,
                    *o == Object::Array(*v),
                    items == obj_view(*o)->Array_0,
                    items.len() == n,
                    out@ == "["@ + items_text(items.take(i as int)),
                decreases n - i,
            {
                if i > 0 {
                    out.append(", ");
                }
                proof {
                    assert(decreases_to!(*o => v@[i as int]));
                }
                let t = object_text(&v[i]);
                out.append(t.as_str());
                proof {
                    assert(items[i as int] == obj_view(v@[i as int]));
                    lemma_items_text_push(items.take(i as int), items[i as int]);
                    assert(items.take(i as int).push(items[i as int]) =~= items.take(i + 1));
                    assert(out@ =~= "["@ + items_text(items.take(i + 1)));
                }
                i = i + 1;
            }
            out.append("]");
            proof {
                assert(items.take(n as int) =~= items);
                assert(out@ =~= "["@ + items_text(items) + "]"@);
            }
            out
        },
    }
}

impl Clone for Object {
    /// Deep copy; the copy has the same model.
    fn clone(&self) -> (r: Self)
        ensures
            r@ == self@,
    {
        clone_object(self)
    }
}

/// Deep copy of a runtime value; the copy has the same model.
#[verifier::loop_isolation(false)]
pub fn clone_object(o: &Object) -> (r: Object)
    ensures
        r@ == o@,
    decreases *o,
{
    match o {
        Object::Number(b) => Object::Number(*b),
        Object::Str(s) => Object::Str(s.clone()),
        Object::Boolean(b) => Object::Boolean(*b),
        Object::Nil => Object::Nil,
        Object::Array(v) => {
            let n = v.len();
            let mut out: Vec<Object> = Vec::new();
            let mut i: usize = 0;
            while i < n
                invariant
                    *o == Object::Array(*v),
                    n == v@.len(),
                    i <= n,
                    out@.len() == i,
                    forall|j: int| 0 <= j < i ==> obj_view(#[trigger] out@[j]) == obj_view(v@[j]),
                decreases n - i,
            {
                proof {
                    assert(decreases_to!(*o => v@[i as int]));
                }
                let c = clone_object(&v[i]);
                out.push(c);
                i = i + 1;
            }
            let r = Object::Array(out);
            proof {
                assert(r@->Array_0 =~= (*o)@->Array_0);
                assert(r@ == (*o)@);
            }
            r
        },
    }
}

} // verus!
