//! The pricing resolution engine behind an Azure SQL Database backup-pricing
//! service: building OData-style filter expressions from semantic lookup
//! parameters, deciding the fallback cascade when upstream data is sparse or
//! unavailable, selecting the single best long-term-retention price among
//! candidates, and reducing raw price records to a deduplicated, sorted
//! region catalog. The HTTP transport and JSON wire handling live outside
//! this crate and hand the engine plain values.

use vstd::prelude::*;

pub mod cascade;
pub mod config;
pub mod filters;
pub mod item;
pub mod select;
pub mod text;

verus! {

/// Why one upstream pricing fetch failed: a non-success HTTP status, a payload
/// that did not decode into price records, a request URL that could not be
/// formed, or a transport failure that produced no HTTP status at all.
#[derive(Debug, Clone, Copy, PartialEq, Eq, Structural)]
pub enum FetchError {
    Http(u16),
    Decode,
    InvalidUrl,
    Transport,
}

/// Validates the transport outcome of one upstream call: a status in the
/// success range is accepted, anything else is an HTTP error carrying the
/// status code.
pub fn check_status(status: u16) -> (r: Result<(), FetchError>)
    ensures
        r is Ok <==> 200 <= status < 300,
        r is Err ==> r->Err_0 == FetchError::Http(status),
{
    if 200 <= status && status < 300 {
        Ok(())
    } else {
        Err(FetchError::Http(status))
    }
}

/// The URL obtained by parsing a base URL and appending one query parameter
/// in form-urlencoded form. The encoding is a fixed byte-level mapping, so
/// the result is a function of the three strings alone; it is left as a name
/// that the trusted wrapper below pins.
pub uninterp spec fn spec_request_url(base: Seq<char>, name: Seq<char>, value: Seq<char>) -> Seq<
    char,
>;

/// Relies on `url::Url::parse` and `url::Url::query_pairs_mut` with
/// `form_urlencoded::Serializer::append_pair`: parsing either fails, or
/// yields the base URL with the pair appended percent-encoded, a function of
/// the arguments alone, named `spec_request_url` here. Parsing the fixed
/// upstream endpoint succeeds: it is a well-formed absolute https URL.
#[verifier::external_body]
fn append_query_pair(base: &str, name: &str, value: &str) -> (r: Option<String>)
    ensures
        match r {
            Some(u) => u@ == spec_request_url(base@, name@, value@),
            None => true,
        },
        base@ == crate::config::BASE_URL@ ==> r is Some,
{
    match url::Url::parse(base) {
        Ok(mut u) => {
            u.query_pairs_mut().append_pair(name, value);
            Some(u.as_str().to_string())
        },
        Err(_) => None,
    }
}

/// Assembles the upstream request URL for one fetch: the fixed base
/// endpoint with the filter expression appended as the single `$filter`
/// query parameter. The base endpoint always parses, so this succeeds for
/// every filter; the `Result` keeps the caller-facing error taxonomy, in
/// which a malformed base URL is its own kind.
pub fn build_request_url(filter: &str) -> (r: Result<String, FetchError>)
    ensures
        r is Ok,
        r->Ok_0@ == spec_request_url(crate::config::BASE_URL@, "$filter"@, filter@),
{
    match append_query_pair(crate::config::BASE_URL, "$filter", filter) {
        Some(u) => Ok(u),
        None => Err(FetchError::InvalidUrl),
    }
}

/// The uniform envelope every caller-facing operation is wrapped in: either
/// a success carrying data, or a failure carrying a message, never both.
pub struct ApiResponse<T> {
    pub success: bool,
    pub data: Option<T>,
    pub error: Option<String>,
}

impl<T> ApiResponse<T> {
    /// Wraps a successful result.
    pub fn success(data: T) -> (r: Self)
        ensures
            r.success == true,
            r.data == Some(data),
            r.error is None,
    {
        Self { success: true, data: Some(data), error: None }
    }

    /// Wraps a failure message.
    pub fn error(message: String) -> (r: Self)
        ensures
            r.success == false,
            r.data is None,
            r.error == Some(message),
    {
        Self { success: false, data: None, error: Some(message) }
    }
}

/// The parameters of the generic backup-pricing operation: a service name, a
/// meter-name suffix, and an optional region.
pub struct BackupPricingQuery {
    pub service: String,
    pub meter_suffix: String,
    pub region: Option<String>,
}

} // verus!
