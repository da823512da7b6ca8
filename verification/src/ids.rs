use vstd::prelude::*;

verus! {

/// The canonical text of a record identifier: the lower-case hyphenated
/// form in which the uuid crate prints these 128 bits.
pub uninterp spec fn uuid_text_of(id: u128) -> Seq<char>;

/// What the uuid crate's parser makes of a piece of text: the 128 bits it
/// denotes, or nothing when the text is not a well-formed identifier.
pub uninterp spec fn uuid_of_text(text: Seq<char>) -> Option<u128>;

/// Relies on uuid::Uuid::new_v4: a freshly drawn random identifier.
/// Nothing is assumed about the draw.
#[verifier::external_body]
pub(crate) fn mint_record_id() -> u128 {
    uuid::Uuid::new_v4().as_u128()
}

/// Relies on uuid's hyphenated Display form (reached via Uuid::from_u128):
/// always 36 characters, and uuid::Uuid::parse_str reads the same
/// identifier back from it.
#[verifier::external_body]
pub(crate) fn format_record_id(id: u128) -> (r: String)
    ensures
        r@ == uuid_text_of(id),
        r@.len() == 36,
        uuid_of_text(r@) == Some(id),
{
    uuid::Uuid::from_u128(id).to_string()
}

/// Relies on uuid::Uuid::parse_str: hexadecimal digits with optional
/// hyphens denote an identifier; any other text is rejected.
#[verifier::external_body]
pub(crate) fn parse_record_id(text: &str) -> (r: Option<u128>)
    ensures
        r == uuid_of_text(text@),
{
    match uuid::Uuid::parse_str(text) {
        Ok(u) => Some(u.as_u128()),
        Err(_) => None,
    }
}

} // verus!
