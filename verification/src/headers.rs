//! Access to the header map of the `http` crate.

use http::header::{HeaderMap, HeaderValue};
use vstd::prelude::*;

verus! {

#[verifier::external_type_specification]
#[verifier::external_body]
#[verifier::reject_recursive_types(T)]
pub struct ExHeaderMap<T>(http::header::HeaderMap<T>);

#[verifier::external_type_specification]
#[verifier::external_body]
pub struct ExHeaderValue(http::header::HeaderValue);

#[verifier::external_type_specification]
#[verifier::external_body]
#[verifier::reject_recursive_types(T)]
pub struct ExRequest<T>(http::Request<T>);

/// The values that a header map holds under `name`, in the order in which
/// they were added; each is its text where all its bytes are visible ASCII
/// or tabs, and `None` otherwise.
pub uninterp spec fn header_texts(headers: HeaderMap<HeaderValue>, name: Seq<char>) -> Seq<
    Option<Seq<char>>,
>;

/// `HeaderMap::get_all` and `HeaderValue::to_str`: every value that the map
/// yields for `name`, in the order in which it yields them, each turned into
/// text where `to_str` accepts it. The outcome depends on the map and the
/// name alone.
#[verifier::external_body]
pub(crate) fn header_values(headers: &HeaderMap<HeaderValue>, name: &str) -> (values: Vec<
    Option<String>,
>)
    ensures
        values.deep_view() == header_texts(*headers, name@),
{
    headers.get_all(name).iter().map(|value| value.to_str().ok().map(String::from)).collect()
}

/// `Request::headers`: the header map of a request. The map cannot be named
/// for every body type, so nothing is stated of it.
pub assume_specification<T>[ http::Request::<T>::headers ](request: &http::Request<T>) -> (headers:
    &HeaderMap<HeaderValue>)
;

} // verus!
