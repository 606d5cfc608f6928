//! JSON values as the library reads them, and a received AIS message.

use vstd::prelude::*;
use crate::decimal::{is_decimal, is_decimal_text, trunc_u64, truncate_decimal};
use crate::text::{nat_digits, push_digits, string_from_chars};

verus! {

/// A JSON number. `Float` holds the decimal text of a floating point number, as
/// `f64`'s `Display` writes it.
#[derive(Debug, Clone, PartialEq)]
pub enum JsonNumber {
    PosInt(u64),
    NegInt(i64),
    Float(String),
}

/// A JSON value. The contents of arrays and objects are never read, and are not kept.
#[derive(Debug, Clone, PartialEq)]
pub enum JsonValue {
    Null,
    Bool(bool),
    Number(JsonNumber),
    Text(String),
    Array,
    Object,
}

/// Messages received by AIS-catcher and decoded to JSON: field names and values.
#[derive(Debug, Clone)]
pub struct AisMessage {
    /// The key-value map of the message; where a key occurs twice the first counts.
    pub msg: Vec<(String, JsonValue)>,
}

/// The value under `key`: that of the first entry with that name.
pub open spec fn field_of(m: Seq<(String, JsonValue)>, key: Seq<char>) -> Option<JsonValue>
    decreases m.len(),
{
    if m.len() == 0 {
        None
    } else if m[0].0@ == key {
        Some(m[0].1)
    } else {
        field_of(m.drop_first(), key)
    }
}

/// The integer written in decimal, with a leading `-` when negative.
pub open spec fn int_text(i: int) -> Seq<char> {
    if i < 0 {
        seq!['-'] + nat_digits((-i) as nat)
    } else {
        nat_digits(i as nat)
    }
}

/// A non-negative integer, read exactly.
pub open spec fn exact_u64(v: JsonValue) -> Option<u64> {
    match v {
        JsonValue::Number(JsonNumber::PosInt(n)) => Some(n),
        _ => None,
    }
}

/// A number read as an unsigned integer: a non-negative integer as it is, a negative
/// one as zero, a fraction truncated toward zero (and saturated). Anything else is
/// not read.
pub open spec fn coerced_u64(v: JsonValue) -> Option<u64> {
    match v {
        JsonValue::Number(JsonNumber::PosInt(n)) => Some(n),
        JsonValue::Number(JsonNumber::NegInt(i)) => Some(
            if i < 0 {
                0
            } else {
                i as u64
            },
        ),
        JsonValue::Number(JsonNumber::Float(s)) => if is_decimal_text(s@) {
            Some(trunc_u64(s@))
        } else {
            None
        },
        _ => None,
    }
}

/// The decimal text of a number; anything else has none.
pub open spec fn number_text(v: JsonValue) -> Option<Seq<char>> {
    match v {
        JsonValue::Number(JsonNumber::PosInt(n)) => Some(nat_digits(n as nat)),
        JsonValue::Number(JsonNumber::NegInt(i)) => Some(int_text(i as int)),
        JsonValue::Number(JsonNumber::Float(s)) => if is_decimal_text(s@) {
            Some(s@)
        } else {
            None
        },
        _ => None,
    }
}

proof fn lemma_field_at(m: Seq<(String, JsonValue)>, key: Seq<char>, i: int)
    requires
        0 <= i <= m.len(),
        forall|j: int| 0 <= j < i ==> (#[trigger] m[j]).0@ != key,
    ensures
        i < m.len() && m[i].0@ == key ==> field_of(m, key) == Some(m[i].1),
        i == m.len() ==> field_of(m, key) == None::<JsonValue>,
    decreases i,
{
    if i > 0 {
        let t = m.drop_first();
        assert forall|j: int| 0 <= j < i - 1 implies (#[trigger] t[j]).0@ != key by {
            assert(t[j] == m[j + 1]);
        }
        lemma_field_at(t, key, i - 1);
    }
}

impl AisMessage {
    pub open spec fn field(&self, key: Seq<char>) -> Option<JsonValue> {
        field_of(self.msg@, key)
    }

    /// The index of the entry that holds the value under `key`.
    pub fn position(&self, key: &str) -> (r: Option<usize>)
        ensures
            match r {
                Some(i) => i < self.msg@.len() && self.field(key@) == Some(self.msg@[i as int].1),
                None => self.field(key@) == None::<JsonValue>,
            },
    {
        let k = key.to_owned();
        let mut i: usize = 0;
        while i < self.msg.len()
            invariant
                i <= self.msg@.len(),
                k@ == key@,
                forall|j: int| 0 <= j < i ==> (#[trigger] self.msg@[j]).0@ != key@,
            decreases self.msg@.len() - i,
        {
            if self.msg[i].0 == k {
                proof {
                    lemma_field_at(self.msg@, key@, i as int);
                }
                return Some(i);
            }
            i = i + 1;
        }
        proof {
            lemma_field_at(self.msg@, key@, i as int);
        }
        None
    }
}

impl JsonValue {
    /// The value as a non-negative integer, read exactly.
    pub fn as_exact_u64(&self) -> (r: Option<u64>)
        ensures
            r == exact_u64(*self),
    {
        match self {
            JsonValue::Number(JsonNumber::PosInt(n)) => Some(*n),
            _ => None,
        }
    }

    /// The value as an unsigned integer, coerced from any number.
    pub fn as_coerced_u64(&self) -> (r: Option<u64>)
        ensures
            r == coerced_u64(*self),
    {
        match self {
            JsonValue::Number(JsonNumber::PosInt(n)) => Some(*n),
            JsonValue::Number(JsonNumber::NegInt(i)) => Some(
                if *i < 0 {
                    0
                } else {
                    *i as u64
                },
            ),
            JsonValue::Number(JsonNumber::Float(s)) => {
                if is_decimal(s.as_str()) {
                    Some(truncate_decimal(s.as_str()))
                } else {
                    None
                }
            },
            _ => None,
        }
    }

    /// The decimal text of a number.
    pub fn as_number_text(&self) -> (r: Option<String>)
        ensures
            match r {
                Some(t) => number_text(*self) == Some(t@),
                None => number_text(*self) == None::<Seq<char>>,
            },
    {
        match self {
            JsonValue::Number(JsonNumber::PosInt(n)) => {
                let mut v: Vec<char> = Vec::new();
                push_digits(*n, &mut v);
                assert(v@ =~= nat_digits(*n as nat));
                Some(string_from_chars(&v))
            },
            JsonValue::Number(JsonNumber::NegInt(i)) => {
                let mut v: Vec<char> = Vec::new();
                if *i < 0 {
                    v.push('-');
                    let m: u64 = (-(*i as i128)) as u64;
                    push_digits(m, &mut v);
                    assert(v@ =~= int_text(*i as int));
                } else {
                    push_digits(*i as u64, &mut v);
                    assert(v@ =~= int_text(*i as int));
                }
                Some(string_from_chars(&v))
            },
            JsonValue::Number(JsonNumber::Float(s)) => {
                if is_decimal(s.as_str()) {
                    Some(s.clone())
                } else {
                    None
                }
            },
            _ => None,
        }
    }
}

} // verus!
