use vstd::prelude::*;

use mongodb::bson::oid::ObjectId;

verus! {

#[verifier::external_type_specification]
#[verifier::external_body]
pub struct ExObjectId(ObjectId);

/// A hexadecimal digit, in either case.
pub open spec fn is_hex_digit(c: char) -> bool {
    ('0' <= c && c <= '9') || ('a' <= c && c <= 'f') || ('A' <= c && c <= 'F')
}

/// A text that names an object id: exactly 24 hexadecimal digits.
pub open spec fn is_object_id_text(s: Seq<char>) -> bool {
    &&& s.len() == 24
    &&& forall|i: int| 0 <= i < s.len() ==> is_hex_digit(#[trigger] s[i])
}

/// The message of the error that parsing `s` as an object id gives.
pub uninterp spec fn object_id_error_of(s: Seq<char>) -> Seq<char>;

/// Relies on bson's `ObjectId::parse_str`, which hex-decodes the text and
/// accepts it when it decodes to exactly 12 bytes, and on the `Display` of its
/// error, which depends on the text alone.
#[verifier::external_body]
pub(crate) fn parse_object_id(s: &str) -> (r: Result<ObjectId, String>)
    ensures
        r is Ok <==> is_object_id_text(s@),
        r matches Err(m) ==> m@ == object_id_error_of(s@),
{
    ObjectId::parse_str(s).map_err(|e| e.to_string())
}

} // verus!
