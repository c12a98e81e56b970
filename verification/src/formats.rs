//! Acceptance checks for the textual field formats the host contract
//! fixes: timestamps, random identifiers, request URLs and header names.
//! Each check is delegated to the crate that also parses the format for
//! the application, so the runtime accepts exactly what that crate does.

use vstd::prelude::*;

verus! {

/// Whether the text is an RFC 3339 timestamp, as time accepts it.
pub uninterp spec fn is_rfc3339(s: Seq<char>) -> bool;

/// Whether the text is an ISO 8601 local timestamp, as time accepts it.
pub uninterp spec fn is_iso8601(s: Seq<char>) -> bool;

/// Whether the text is a formatted UUID, as uuid accepts it.
pub uninterp spec fn is_uuid(s: Seq<char>) -> bool;

/// Whether the text is an absolute URL, as url accepts it.
pub uninterp spec fn is_url(s: Seq<char>) -> bool;

/// Whether the text is a header name, as the HTTP stack accepts it.
pub uninterp spec fn is_header_name(s: Seq<char>) -> bool;

/// Relies on time's OffsetDateTime::parse with the RFC 3339 profile:
/// acceptance depends on the text alone.
#[verifier::external_body]
pub(crate) fn rfc3339_valid(s: &str) -> (r: bool)
    ensures
        r == is_rfc3339(s@),
{
    time::OffsetDateTime::parse(s, &time::format_description::well_known::Rfc3339).is_ok()
}

/// Relies on time's PrimitiveDateTime::parse with the default ISO 8601
/// profile: acceptance depends on the text alone.
#[verifier::external_body]
pub(crate) fn iso8601_valid(s: &str) -> (r: bool)
    ensures
        r == is_iso8601(s@),
{
    time::PrimitiveDateTime::parse(
        s,
        &time::format_description::well_known::Iso8601::DEFAULT,
    ).is_ok()
}

/// Relies on uuid's Uuid::parse_str: acceptance depends on the text
/// alone.
#[verifier::external_body]
pub(crate) fn uuid_valid(s: &str) -> (r: bool)
    ensures
        r == is_uuid(s@),
{
    uuid::Uuid::parse_str(s).is_ok()
}

/// Relies on url's Url::parse: acceptance depends on the text alone.
#[verifier::external_body]
pub(crate) fn url_valid(s: &str) -> (r: bool)
    ensures
        r == is_url(s@),
{
    url::Url::parse(s).is_ok()
}

/// Relies on HeaderName::from_str of the HTTP stack: acceptance depends
/// on the text alone.
#[verifier::external_body]
pub(crate) fn header_name_valid(s: &str) -> (r: bool)
    ensures
        r == is_header_name(s@),
{
    <hyper::header::HeaderName as core::str::FromStr>::from_str(s).is_ok()
}

} // verus!
