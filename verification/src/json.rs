//! A JSON-compatible value model.
//!
//! Query results cross the engine boundary as these values only: every
//! database-native cell is coerced into one. Floating-point numbers are
//! carried as their IEEE 754 bit patterns so that the engine's rules about
//! them (a non-finite double has no JSON representation) can be stated and
//! checked exactly.
use vstd::prelude::*;

verus! {

/// A JSON number: signed integer, unsigned integer, or a double carried as
/// its IEEE 754 bit pattern.
#[derive(Clone, Copy, Debug, PartialEq, Eq, Structural)]
pub enum JsonNumber {
    Int(i64),
    UInt(u64),
    FloatBits(u64),
}

/// A JSON-compatible value: the canonical output of value coercion and the
/// shape of execution plans.
#[derive(Debug)]
pub enum JsonValue {
    Null,
    Bool(bool),
    Number(JsonNumber),
    Text(String),
    Array(Vec<JsonValue>),
    Object(Vec<(String, JsonValue)>),
}

/// The exponent field of an IEEE 754 double is all ones exactly for NaN and
/// the infinities; every other bit pattern denotes a finite double.
pub open spec fn float_bits_finite(bits: u64) -> bool {
    bits & 0x7FF0000000000000 != 0x7FF0000000000000
}

/// Whether `bits`, read as an IEEE 754 double, is finite.
pub fn is_finite_float_bits(bits: u64) -> (r: bool)
    ensures
        r == float_bits_finite(bits),
{
    bits & 0x7FF0000000000000 != 0x7FF0000000000000
}

/// Element `i` of an array value, if the value is an array and `i` is in
/// bounds.
pub open spec fn spec_get_index(v: JsonValue, i: int) -> Option<JsonValue> {
    match v {
        JsonValue::Array(items) => if 0 <= i < items@.len() {
            Some(items@[i])
        } else {
            None
        },
        _ => None,
    }
}

/// The value under the first pair whose key equals `key`, if any.
pub open spec fn spec_lookup(pairs: Seq<(String, JsonValue)>, key: Seq<char>) -> Option<JsonValue>
    decreases pairs.len(),
{
    if pairs.len() == 0 {
        None
    } else if pairs[0].0@ == key {
        Some(pairs[0].1)
    } else {
        spec_lookup(pairs.drop_first(), key)
    }
}

/// The value under `key`, if the value is an object holding that key.
pub open spec fn spec_get_key(v: JsonValue, key: Seq<char>) -> Option<JsonValue> {
    match v {
        JsonValue::Object(pairs) => spec_lookup(pairs@, key),
        _ => None,
    }
}

/// The number held by the value, if it is a number.
pub open spec fn spec_as_number(v: JsonValue) -> Option<JsonNumber> {
    match v {
        JsonValue::Number(n) => Some(n),
        _ => None,
    }
}

impl JsonValue {
    /// Indexes into an array value; `None` on any other shape or out of
    /// bounds.
    pub fn get_index(&self, i: usize) -> (r: Option<&JsonValue>)
        ensures
            r matches Some(v) ==> spec_get_index(*self, i as int) == Some(*v),
            r is None ==> spec_get_index(*self, i as int) is None,
    {
        match self {
            JsonValue::Array(items) => if i < items.len() {
                Some(&items[i])
            } else {
                None
            },
            _ => None,
        }
    }

    /// Looks a key up in an object value; `None` on any other shape or when
    /// the key is absent.
    pub fn get_key(&self, key: &str) -> (r: Option<&JsonValue>)
        ensures
            r matches Some(v) ==> spec_get_key(*self, key@) == Some(*v),
            r is None ==> spec_get_key(*self, key@) is None,
    {
        match self {
            JsonValue::Object(pairs) => {
                let n = pairs.len();
                let mut i: usize = 0;
                proof {
                    assert(pairs@.skip(0) =~= pairs@);
                }
                while i < n
                    invariant
                        n == pairs@.len(),
                        i <= n,
                        *self is Object && (*self)->Object_0@ == pairs@,
                        spec_lookup(pairs@, key@) == spec_lookup(pairs@.skip(i as int), key@),
                    decreases n - i,
                {
                    proof {
                        assert(pairs@.skip(i as int)[0] == pairs@[i as int]);
                    }
                    if crate::text::str_eq(pairs[i].0.as_str(), key) {
                        proof {
                            assert(spec_lookup(pairs@.skip(i as int), key@) == Some(
                                pairs@[i as int].1,
                            ));
                            assert(spec_get_key(*self, key@) == spec_lookup(pairs@, key@));
                        }
                        return Some(&pairs[i].1);
                    }
                    proof {
                        assert(pairs@.skip(i as int).drop_first() =~= pairs@.skip(i + 1));
                    }
                    i += 1;
                }
                proof {
                    assert(pairs@.skip(n as int).len() == 0);
                }
                None
            },
            _ => None,
        }
    }

    /// The number held by this value, if it is a number.
    pub fn as_number(&self) -> (r: Option<JsonNumber>)
        ensures
            r == spec_as_number(*self),
    {
        match self {
            JsonValue::Number(n) => Some(*n),
            _ => None,
        }
    }
}

} // verus!
