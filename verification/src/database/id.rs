//! Ids that are UUIDs.

use vstd::prelude::*;

verus! {

/// What `text` reads as when taken for a UUID: the UUID in its usual form, 36
/// characters of lower-case hexadecimal digits and hyphens, or why `text` is
/// no UUID.
pub uninterp spec fn uuid_canonical(text: Seq<char>) -> Result<Seq<char>, Seq<char>>;

/// What `canonical_uuid` returns, as contracts see it.
pub open spec fn text_result_view(read: Result<String, String>) -> Result<Seq<char>, Seq<char>> {
    match read {
        Ok(text) => Ok(text@),
        Err(complaint) => Err(complaint@),
    }
}

/// Reads `id` with `uuid::Uuid::parse_str` and writes the UUID out again with
/// its `Display`. The contract gives the outcome a name and claims no more.
#[verifier::external_body]
pub(crate) fn canonical_uuid(id: &str) -> (read: Result<String, String>)
    ensures
        text_result_view(read) == uuid_canonical(id@),
{
    match uuid::Uuid::parse_str(id) {
        Ok(uuid) => Ok(uuid.to_string()),
        Err(error) => Err(error.to_string()),
    }
}

/// A random UUID from `uuid::Uuid::new_v4`, written out with its `Display`.
/// Which one comes is chance. The contract claims what holds of each: written
/// out and read again, it is the same text.
#[verifier::external_body]
pub(crate) fn create_new_uuid() -> (id: String)
    ensures
        uuid_canonical(id@) == Ok::<Seq<char>, Seq<char>>(id@),
{
    let id = uuid::Uuid::new_v4();
    id.to_string()
}

} // verus!
