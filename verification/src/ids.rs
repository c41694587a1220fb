//! Identifiers: UUIDs of teams and staff positions, Discord snowflakes.
use vstd::prelude::*;
use vstd::string::StringSliceAdditionalSpecFns;

verus! {

/// What `uuid::Uuid::parse_str` makes of a text: the UUID as its 128-bit
/// value, or the text of the error it rejects the text with.
pub uninterp spec fn uuid_parse_spec(s: Seq<char>) -> Result<u128, Seq<char>>;

/// Calls `uuid::Uuid::parse_str` and returns the parsed UUID as its 128-bit
/// value (`Uuid::as_u128`), or the error's `Display` text.
///
/// The contract names the result (`uuid_parse_spec`), a function of the text
/// alone, and states the one fact its source shows plainly: only texts of 32
/// (simple), 36 (hyphenated), 38 (braced) or 45 (urn) bytes are accepted.
#[verifier::external_body]
pub(crate) fn parse_uuid(s: &str) -> (r: Result<u128, String>)
    ensures
        r is Ok ==> uuid_parse_spec(s@) == Ok::<u128, Seq<char>>(r->Ok_0),
        r is Err ==> uuid_parse_spec(s@) == Err::<u128, Seq<char>>(r->Err_0@),
        r is Ok ==> (s.spec_bytes().len() == 32 || s.spec_bytes().len() == 36
            || s.spec_bytes().len() == 38 || s.spec_bytes().len() == 45),
{
    match uuid::Uuid::parse_str(s) {
        Ok(u) => Ok(u.as_u128()),
        Err(e) => Err(e.to_string()),
    }
}

/// Whether `id` is one of `ids`.
pub fn contains_id(ids: &Vec<u64>, id: u64) -> (r: bool)
    ensures
        r == ids@.contains(id),
{
    let mut i: usize = 0;
    while i < ids.len()
        invariant
            i <= ids.len(),
            forall|j: int| 0 <= j < i ==> ids@[j] != id,
        decreases ids.len() - i,
    {
        if ids[i] == id {
            assert(ids@[i as int] == id);
            return true;
        }
        i = i + 1;
    }
    false
}

} // verus!
