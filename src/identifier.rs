//! The structural identifier of an AIS message: its type, and for binary messages
//! its designated area code and functional ID.

use vstd::prelude::*;
use crate::json::{exact_u64, AisMessage};
use crate::text::{nat_digits, u64_to_text};

verus! {

/// Identifies a kind of AIS message. Two identifiers are equal when all three parts
/// are, an absent part being equal only to an absent part.
#[derive(Debug, Default, Clone, Copy, PartialEq, Eq, Hash, Structural)]
pub struct AisMessageIdentifier {
    /// Message type
    pub msg_type: u64,
    /// Designated Area Code
    pub dac: Option<u64>,
    /// Functional ID
    pub fid: Option<u64>,
}

/// The field under `key`, where it holds a non-negative integer.
pub open spec fn field_u64(m: AisMessage, key: Seq<char>) -> Option<u64> {
    match m.field(key) {
        Some(v) => exact_u64(v),
        None => None,
    }
}

/// The identifier of a message: `None` where it has no numeric `type`; `dac` and
/// `fid` are absent where the message lacks them or they are not numbers.
pub open spec fn identifier_of(m: AisMessage) -> Option<AisMessageIdentifier> {
    match field_u64(m, "type"@) {
        Some(t) => Some(
            AisMessageIdentifier { msg_type: t, dac: field_u64(m, "dac"@), fid: field_u64(m, "fid"@) },
        ),
        None => None,
    }
}

/// A part of an identifier as text: its number, or `None`.
pub open spec fn part_text(p: Option<u64>) -> Seq<char> {
    match p {
        Some(v) => nat_digits(v as nat),
        None => "None"@,
    }
}

/// Reads the field under `key` as a non-negative integer.
pub fn read_u64_field(m: &AisMessage, key: &str) -> (r: Option<u64>)
    ensures
        r == field_u64(*m, key@),
{
    match m.position(key) {
        Some(i) => m.msg[i].1.as_exact_u64(),
        None => None,
    }
}

impl AisMessageIdentifier {
    /// Derives the identifier of a message.
    pub fn from_message(f: &AisMessage) -> (r: Option<Self>)
        ensures
            r == identifier_of(*f),
    {
        match read_u64_field(f, "type") {
            Some(t) => Some(
                AisMessageIdentifier {
                    msg_type: t,
                    dac: read_u64_field(f, "dac"),
                    fid: read_u64_field(f, "fid"),
                },
            ),
            None => None,
        }
    }

    /// The identifier as text, such as `AisMessageIdentifier(8/200/31)`.
    pub fn describe(&self) -> (r: String)
        ensures
            r@ == "AisMessageIdentifier("@ + nat_digits(self.msg_type as nat) + "/"@ + part_text(
                self.dac,
            ) + "/"@ + part_text(self.fid) + ")"@,
    {
        let mut r = String::from_str("AisMessageIdentifier(");
        let t = u64_to_text(self.msg_type);
        r.append(t.as_str());
        r.append("/");
        let d = part_to_text(self.dac);
        r.append(d.as_str());
        r.append("/");
        let f = part_to_text(self.fid);
        r.append(f.as_str());
        r.append(")");
        r
    }
}

fn part_to_text(p: Option<u64>) -> (r: String)
    ensures
        r@ == part_text(p),
{
    match p {
        Some(v) => u64_to_text(v),
        None => String::from_str("None"),
    }
}

} // verus!
