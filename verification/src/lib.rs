//! Error envelopes for HTTP APIs shaped after RFC 7807 ("problem details").
//!
//! The crate offers two types: [`problem::HttpApiProblem`], the wire-safe
//! envelope that serializes to a flat JSON object, and
//! [`api_error::ApiError`], a richer in-process error that carries a status,
//! an opaque cause and typed annotations, and converts into an
//! `HttpApiProblem` at the API boundary.

use vstd::prelude::*;

pub mod api_error;
pub mod jsonval;
pub mod problem;
pub mod status;

verus! {

/// The recommended media type when a problem is serialized to JSON.
pub const PROBLEM_JSON_MEDIA_TYPE: &'static str = "application/problem+json";

/// The characters of an optional string.
pub open spec fn opt_text(o: Option<String>) -> Option<Seq<char>> {
    match o {
        Some(s) => Some(s@),
        None => None,
    }
}

/// The names of the core problem fields: an extension field may not use one
/// of them as its key.
pub open spec fn is_reserved_field_name(name: Seq<char>) -> bool {
    ||| name == "type"@
    ||| name == "status"@
    ||| name == "title"@
    ||| name == "detail"@
    ||| name == "instance"@
}

/// Decides whether `name` is one of the reserved core field names.
pub fn reserved_field_name(name: &str) -> (r: bool)
    ensures
        r == is_reserved_field_name(name@),
{
    str_eq(name, "type") || str_eq(name, "status") || str_eq(name, "title") || str_eq(
        name,
        "detail",
    ) || str_eq(name, "instance")
}

/// Each of the five core field names is reserved; a rejected key is
/// exactly one of them.
pub proof fn lemma_reserved_field_names()
    ensures
        is_reserved_field_name("type"@),
        is_reserved_field_name("status"@),
        is_reserved_field_name("title"@),
        is_reserved_field_name("detail"@),
        is_reserved_field_name("instance"@),
        forall|name: Seq<char>|
            #[trigger] is_reserved_field_name(name) ==> name == "type"@ || name == "status"@
                || name == "title"@ || name == "detail"@ || name == "instance"@,
{
}

/// Compares two string slices character by character.
pub fn str_eq(a: &str, b: &str) -> (r: bool)
    ensures
        r == (a@ == b@),
{
    let an = a.unicode_len();
    let bn = b.unicode_len();
    if an != bn {
        assert(a@ != b@) by {
            assert(a@.len() != b@.len());
        }
        return false;
    }
    let mut i: usize = 0;
    while i < an
        invariant
            i <= an,
            an == a@.len(),
            an == b@.len(),
            forall|j: int| 0 <= j < i ==> a@[j] == b@[j],
        decreases an - i,
    {
        if a.get_char(i) != b.get_char(i) {
            return false;
        }
        i = i + 1;
    }
    assert(a@ =~= b@);
    true
}

} // verus!
