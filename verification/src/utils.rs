//! Identifiers: the one textual shape that message ids must have, and fresh
//! identifiers of that shape.

use vstd::prelude::*;

verus! {

/// `uuid::parser::ParseError`, the error of `uuid::Uuid::parse_str`: carried
/// to whoever asked, never looked into.
#[verifier::external_type_specification]
#[verifier::external_body]
pub struct ExUuidParseError(uuid::parser::ParseError);

/// Why a message id is refused.
#[derive(Debug)]
pub enum UuidInvalid {
    /// A UUID, but not written as 36 lower-case hyphenated characters.
    Format,
    /// Not a UUID in any of the three forms in which one is written.
    Error(uuid::parser::ParseError),
}

pub open spec fn is_lower_hex(c: char) -> bool {
    ('0' <= c && c <= '9') || ('a' <= c && c <= 'f')
}

pub open spec fn is_hex(c: char) -> bool {
    is_lower_hex(c) || ('A' <= c && c <= 'F')
}

/// The positions of the four hyphens in a hyphenated identifier.
pub open spec fn is_hyphen_position(i: int) -> bool {
    i == 8 || i == 13 || i == 18 || i == 23
}

/// Groups of 8, 4, 4, 4 and 12 hexadecimal digits, of either case, with a
/// hyphen between them.
pub open spec fn is_hyphenated(s: Seq<char>) -> bool {
    &&& s.len() == 36
    &&& forall|i: int|
        0 <= i < 36 ==> if is_hyphen_position(i) {
            s[i] == '-'
        } else {
            is_hex(#[trigger] s[i])
        }
}

/// The accepted shape of a message id: groups of 8, 4, 4, 4 and 12 lower-case
/// hexadecimal digits with a hyphen between them, and nothing else.
pub open spec fn is_hyphenated_lower(s: Seq<char>) -> bool {
    &&& s.len() == 36
    &&& forall|i: int|
        0 <= i < 36 ==> if is_hyphen_position(i) {
            s[i] == '-'
        } else {
            is_lower_hex(#[trigger] s[i])
        }
}

/// 32 hexadecimal digits, of either case, and nothing else.
pub open spec fn is_simple(s: Seq<char>) -> bool {
    &&& s.len() == 32
    &&& forall|i: int| 0 <= i < 32 ==> is_hex(#[trigger] s[i])
}

/// The hyphenated form behind `urn:uuid:`.
pub open spec fn is_urn(s: Seq<char>) -> bool {
    &&& s.len() == 45
    &&& s.subrange(0, 9) == "urn:uuid:"@
    &&& is_hyphenated(s.subrange(9, 45))
}

/// The texts that are a UUID in one of the three forms in which one is
/// written: hyphenated, simple, or as a URN.
pub open spec fn is_uuid_text(s: Seq<char>) -> bool {
    is_hyphenated(s) || is_simple(s) || is_urn(s)
}

/// Calls `uuid::Uuid::parse_str` and keeps only whether it accepted the
/// text. Taken on trust: it accepts exactly the three forms that the crate
/// writes, with digits of either case: the hyphenated form, 32 digits, and
/// the hyphenated form behind `urn:uuid:`. The parser admits no other
/// length than 36, 32 and, with that prefix, 45 bytes, takes a hyphen only
/// at the end of a group of 8, 4, 4 and 4 digits, and any other byte that
/// is no hexadecimal digit not at all.
#[verifier::external_body]
fn parse_uuid(id: &str) -> (r: Result<(), uuid::parser::ParseError>)
    ensures
        r is Ok <==> is_uuid_text(id@),
{
    uuid::Uuid::parse_str(id).map(|_| ())
}

/// Calls `uuid::Uuid::new_v4` and writes the result out with
/// `to_hyphenated`. Taken on trust: that adapter prints lower-case digits in
/// the five hyphenated groups. Which digits is chance, and nothing is
/// claimed of them.
#[verifier::external_body]
fn new_v4_hyphenated() -> (id: String)
    ensures
        is_hyphenated_lower(id@),
{
    uuid::Uuid::new_v4().to_hyphenated().to_string()
}

fn lower_hex(c: char) -> (r: bool)
    ensures
        r == is_lower_hex(c),
{
    ('0' <= c && c <= '9') || ('a' <= c && c <= 'f')
}

/// Whether a text has the accepted shape of a message id.
pub fn has_id_shape(id: &str) -> (r: bool)
    ensures
        r == is_hyphenated_lower(id@),
{
    if id.unicode_len() != 36 {
        return false;
    }
    let mut i: usize = 0;
    while i < 36
        invariant
            i <= 36,
            id@.len() == 36,
            forall|j: int|
                0 <= j < i ==> if is_hyphen_position(j) {
                    id@[j] == '-'
                } else {
                    is_lower_hex(#[trigger] id@[j])
                },
        decreases 36 - i,
    {
        let c = id.get_char(i);
        if i == 8 || i == 13 || i == 18 || i == 23 {
            if c != '-' {
                return false;
            }
        } else if !lower_hex(c) {
            assert(!is_lower_hex(id@[i as int]));
            return false;
        }
        i += 1;
    }
    true
}

/// What the validation of a message id answers.
pub open spec fn id_verdict(id: Seq<char>, r: Result<(), UuidInvalid>) -> bool {
    &&& r is Ok <==> is_hyphenated_lower(id)
    &&& (r is Err && r->Err_0 is Format) <==> is_uuid_text(id) && !is_hyphenated_lower(id)
    &&& (r is Err && r->Err_0 is Error) <==> !is_uuid_text(id)
}

/// Validates a message id. Clients must write it exactly as the coordinator
/// would: nothing is normalised, so that both sides can key maps by the text.
pub fn is_valid_uuid_v4_hypenated(id: &String) -> (r: Result<(), UuidInvalid>)
    ensures
        id_verdict(id@, r),
{
    proof {
        lemma_lower_is_hyphenated(id@);
    }
    match parse_uuid(id.as_str()) {
        Ok(_) => {
            if has_id_shape(id.as_str()) {
                return Ok(());
            }
            Err(UuidInvalid::Format)
        },
        Err(e) => Err(UuidInvalid::Error(e)),
    }
}

/// A fresh identifier, in the shape that message ids must have.
pub fn get_unique_id() -> (id: String)
    ensures
        is_hyphenated_lower(id@),
{
    new_v4_hyphenated()
}

/// The accepted shape is one of the hyphenated forms.
pub proof fn lemma_lower_is_hyphenated(s: Seq<char>)
    ensures
        is_hyphenated_lower(s) ==> is_hyphenated(s),
{
    if is_hyphenated_lower(s) {
        assert forall|i: int| 0 <= i < 36 implies if is_hyphen_position(i) {
            s[i] == '-'
        } else {
            is_hex(#[trigger] s[i])
        } by {
            if !is_hyphen_position(i) {
                assert(is_lower_hex(s[i]));
            }
        }
    }
}

} // verus!
