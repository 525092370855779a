//! Header maps, held as `http::HeaderMap`.

use vstd::prelude::*;

verus! {

#[verifier::external_type_specification]
#[verifier::external_body]
#[verifier::reject_recursive_types(T)]
pub struct ExHeaderMap<T>(http::HeaderMap<T>);

#[verifier::external_type_specification]
#[verifier::external_body]
pub struct ExHeaderValue(http::HeaderValue);

/// A name for what a header map holds: for each header name, as lower-case
/// bytes, its values as bytes, in the order in which they were added.
pub uninterp spec fn header_entries(h: http::HeaderMap) -> Map<Seq<u8>, Seq<Seq<u8>>>;

/// Relies on http::HeaderMap::new: a map with no headers.
#[verifier::external_body]
pub(crate) fn empty_headers() -> (r: http::HeaderMap)
    ensures
        header_entries(r) =~= Map::empty(),
{
    http::HeaderMap::new()
}

/// Relies on the `Clone` impl of http::HeaderMap: the copy holds the same
/// headers.
#[verifier::external_body]
pub(crate) fn copy_headers(h: &http::HeaderMap) -> (r: http::HeaderMap)
    ensures
        header_entries(r) == header_entries(*h),
{
    h.clone()
}

} // verus!
