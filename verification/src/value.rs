//! The runtime value representation: a closed set of variants, with a
//! mathematical model for contracts.

use vstd::prelude::*;

use crate::numeric::eq_bits;
use crate::numeric::num_eq;

verus! {

/// A runtime value. Numbers carry the bit pattern of an IEEE 754 double.
#[derive(Debug)]
pub enum Value {
    Number(u64),
    Boolean(bool),
    Str(String),
    Nil,
}

/// The mathematical model of a value: text becomes its character
/// sequence, the other variants carry plain values.
#[verifier::ext_equal]
pub enum ValueModel {
    Number(u64),
    Boolean(bool),
    Str(Seq<char>),
    Nil,
}

impl DeepView for Value {
    type V = ValueModel;

    open spec fn deep_view(&self) -> ValueModel {
        match self {
            Value::Number(b) => ValueModel::Number(*b),
            Value::Boolean(x) => ValueModel::Boolean(*x),
            Value::Str(s) => ValueModel::Str(s@),
            Value::Nil => ValueModel::Nil,
        }
    }
}

/// The truthiness rule: only `Nil` and `Boolean(false)` are falsy;
/// every other value, including the number zero, is truthy.
pub open spec fn spec_truthy(v: ValueModel) -> bool {
    !(v == ValueModel::Nil || v == ValueModel::Boolean(false))
}

/// Equality as the `Equal` instruction sees it: values of different
/// variants are unequal, numbers compare by IEEE 754 equality, strings
/// by their text.
pub open spec fn spec_values_equal(a: ValueModel, b: ValueModel) -> bool {
    match (a, b) {
        (ValueModel::Number(x), ValueModel::Number(y)) => eq_bits(x, y),
        (ValueModel::Boolean(x), ValueModel::Boolean(y)) => x == y,
        (ValueModel::Str(x), ValueModel::Str(y)) => x == y,
        (ValueModel::Nil, ValueModel::Nil) => true,
        _ => false,
    }
}

impl Value {
    /// An owned copy of the value.
    pub fn dup(&self) -> (r: Value)
        ensures
            r == *self,
    {
        match self {
            Value::Number(b) => Value::Number(*b),
            Value::Boolean(x) => Value::Boolean(*x),
            Value::Str(s) => Value::Str(s.clone()),
            Value::Nil => Value::Nil,
        }
    }

    pub fn truthy(&self) -> (r: bool)
        ensures
            r == spec_truthy(self.deep_view()),
    {
        match self {
            Value::Nil => false,
            Value::Boolean(x) => *x,
            _ => true,
        }
    }
}

/// Whether two values are equal under the `Equal` instruction's rules.
pub fn values_equal(a: &Value, b: &Value) -> (r: bool)
    ensures
        r == spec_values_equal(a.deep_view(), b.deep_view()),
{
    match (a, b) {
        (Value::Number(x), Value::Number(y)) => num_eq(*x, *y),
        (Value::Boolean(x), Value::Boolean(y)) => *x == *y,
        (Value::Str(x), Value::Str(y)) => *x == *y,
        (Value::Nil, Value::Nil) => true,
        _ => false,
    }
}

/// Relies on `String::push_str`: appends the given slice to the string.
#[verifier::external_body]
fn push_str(s: &mut String, t: &str)
    ensures
        final(s)@ == old(s)@ + t@,
{
    s.push_str(t);
}

/// The concatenation of two strings, as `Add` on two string values
/// produces it.
pub fn concat_strings(a: &String, b: &String) -> (r: String)
    ensures
        r@ == a@ + b@,
{
    let mut r = a.clone();
    push_str(&mut r, b.as_str());
    r
}

} // verus!
