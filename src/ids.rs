use vstd::prelude::*;

verus! {

/// A document id: the twelve bytes of a store object id.
#[derive(Clone, Copy, Debug, PartialEq, Eq)]
pub struct RecordId {
    pub bytes: [u8; 12],
}

/// A point in time, in milliseconds since the Unix epoch.
#[derive(Clone, Copy, Debug, PartialEq, Eq, Structural)]
pub struct Timestamp {
    pub millis: i64,
}

pub open spec fn is_hex_digit(c: char) -> bool {
    ||| ('0' as u32 <= c as u32 && c as u32 <= '9' as u32)
    ||| ('a' as u32 <= c as u32 && c as u32 <= 'f' as u32)
    ||| ('A' as u32 <= c as u32 && c as u32 <= 'F' as u32)
}

pub open spec fn hex_value(c: char) -> int {
    if '0' as u32 <= c as u32 && c as u32 <= '9' as u32 {
        c as u32 - '0' as u32
    } else if 'a' as u32 <= c as u32 && c as u32 <= 'f' as u32 {
        c as u32 - 'a' as u32 + 10
    } else {
        c as u32 - 'A' as u32 + 10
    }
}

/// Text that names a record id: exactly 24 hex digits, in either case.
pub open spec fn is_record_id_text(s: Seq<char>) -> bool {
    s.len() == 24 && forall|i: int| 0 <= i < 24 ==> is_hex_digit(#[trigger] s[i])
}

/// The bytes that 24 hex digits stand for, two digits a byte, high digit first.
pub open spec fn record_id_bytes(s: Seq<char>) -> Seq<u8> {
    Seq::new(12, |i: int| (hex_value(s[2 * i]) * 16 + hex_value(s[2 * i + 1])) as u8)
}

pub open spec fn lower_hex_digits() -> Seq<char> {
    seq!['0', '1', '2', '3', '4', '5', '6', '7', '8', '9', 'a', 'b', 'c', 'd', 'e', 'f']
}

/// Two lower-case hex digits for each byte, high digit first.
pub open spec fn hex_text(b: Seq<u8>) -> Seq<char> {
    Seq::new(
        2 * b.len(),
        |i: int|
            if i % 2 == 0 {
                lower_hex_digits()[b[i / 2] as int / 16]
            } else {
                lower_hex_digits()[b[i / 2] as int % 16]
            },
    )
}

/// Relies on bson's ObjectId::new: a fresh id (time, process and counter); nothing is promised of its bytes.
#[verifier::external_body]
fn new_object_id() -> (r: RecordId) {
    RecordId { bytes: mongodb::bson::oid::ObjectId::new().bytes() }
}

/// Relies on bson's ObjectId::parse_str, which hex-decodes the text and accepts exactly 12 bytes.
#[verifier::external_body]
fn parse_object_id(s: &str) -> (r: Option<RecordId>)
    ensures
        r is Some <==> is_record_id_text(s@),
        r is Some ==> r->0.bytes@ == record_id_bytes(s@),
{
    match mongodb::bson::oid::ObjectId::parse_str(s) {
        Ok(id) => Some(RecordId { bytes: id.bytes() }),
        Err(_) => None,
    }
}

/// Relies on bson's ObjectId::to_hex, which is hex::encode of the twelve bytes.
#[verifier::external_body]
fn object_id_hex(id: &RecordId) -> (r: String)
    ensures
        r@ == hex_text(id.bytes@),
{
    mongodb::bson::oid::ObjectId::from_bytes(id.bytes).to_hex()
}

/// Relies on bson's DateTime::now, read as milliseconds: the clock, so nothing is promised.
#[verifier::external_body]
fn clock_millis() -> (r: i64) {
    mongodb::bson::DateTime::now().timestamp_millis()
}

impl RecordId {
    /// A fresh id for a new document.
    pub fn fresh() -> (r: RecordId)
        ensures
            r.bytes@.len() == 12,
    {
        new_object_id()
    }

    /// Reads an id from its 24-digit hex form; `None` for any other text.
    pub fn parse(s: &str) -> (r: Option<RecordId>)
        ensures
            r is Some <==> is_record_id_text(s@),
            r is Some ==> r->0.bytes@ == record_id_bytes(s@),
    {
        parse_object_id(s)
    }

    /// The 24-digit lower-case hex form of the id.
    pub fn to_hex(&self) -> (r: String)
        ensures
            r@ == hex_text(self.bytes@),
            r@.len() == 24,
    {
        object_id_hex(self)
    }
}

impl Timestamp {
    /// The current time of the store's clock.
    pub fn now() -> (r: Timestamp) {
        Timestamp { millis: clock_millis() }
    }
}

} // verus!
