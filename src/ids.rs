use vstd::prelude::*;

use bson::oid::ObjectId;

verus! {

/// The store's twelve-byte document identifier, carried through unopened.
#[verifier::external_type_specification]
#[verifier::external_body]
pub struct ExObjectId(ObjectId);

/// Relies on the `Clone` that bson derives for `ObjectId` (a `Copy` type): the same identifier.
pub assume_specification[ <ObjectId as Clone>::clone ](o: &ObjectId) -> (r: ObjectId)
    ensures
        r == *o,
;

/// An ASCII hexadecimal digit, either case.
pub open spec fn is_hex_digit(c: char) -> bool {
    ('0' <= c && c <= '9') || ('a' <= c && c <= 'f') || ('A' <= c && c <= 'F')
}

/// Text that names an identifier: exactly twenty-four hexadecimal digits.
pub open spec fn is_object_id_text(s: Seq<char>) -> bool {
    s.len() == 24 && forall|i: int| 0 <= i < s.len() ==> is_hex_digit(#[trigger] s[i])
}

/// Relies on bson's `ObjectId::parse_str`: it hex-decodes the text and accepts it
/// exactly when the decoding succeeds and yields twelve bytes.
#[verifier::external_body]
fn parse_object_id(s: &str) -> (r: Option<ObjectId>)
    ensures
        r is Some <==> is_object_id_text(s@),
{
    ObjectId::parse_str(s).ok()
}

/// Text that is not an identifier.
#[derive(Clone, Copy, Debug, PartialEq, Eq)]
pub struct InvalidSubjectId;

/// Reads a subject identifier from its hexadecimal text.
pub fn parse_subject_id(id: &str) -> (r: Result<ObjectId, InvalidSubjectId>)
    ensures
        r is Ok <==> is_object_id_text(id@),
{
    match parse_object_id(id) {
        Some(oid) => Ok(oid),
        None => Err(InvalidSubjectId),
    }
}

/// A point in time, as milliseconds since the Unix epoch in UTC.
#[derive(Clone, Copy, Debug, PartialEq, Eq)]
pub struct Timestamp {
    pub millis: i64,
}

/// Milliseconds in one day.
pub const MILLIS_PER_DAY: i64 = 86_400_000;

impl Timestamp {
    /// This timestamp moved forward by `days` whole days.
    pub fn plus_days(self, days: i64) -> (r: Timestamp)
        requires
            0 <= days <= 1_000_000,
            self.millis + days * MILLIS_PER_DAY <= i64::MAX,
        ensures
            r.millis == self.millis + days * MILLIS_PER_DAY,
    {
        assert(0 <= days * MILLIS_PER_DAY <= 1_000_000 * MILLIS_PER_DAY) by (nonlinear_arith)
            requires
                0 <= days <= 1_000_000,
        ;
        Timestamp { millis: self.millis + days * MILLIS_PER_DAY }
    }
}

} // verus!
