//! The HTTP driver's logic: configuration, request URLs with percent-encoded
//! query parameters, and the reading of an exchange's outcome. The network
//! call itself is left to the surrounding program, which hands back an
//! `HttpOutcome`.

use crate::irmin::types::Resource;
use crate::irmin::types::ResourceView;
use crate::irmin::types::StoreError;
use vstd::prelude::*;
use vstd::string::StringExecFns;

verus! {

/// Configuration for reaching the store's HTTP server.
pub struct IrminHttpConfig {
    /// Base URL of the server.
    pub server_url: String,
    /// Time limit for one request, in whole seconds.
    pub timeout_secs: u64,
}

impl IrminHttpConfig {
    /// Defaults: a local server on port 8080, with a 30-second timeout.
    pub fn new() -> (r: Self)
        ensures
            r.server_url@ == "http://localhost:8080"@,
            r.timeout_secs == 30,
    {
        Self { server_url: String::from_str("http://localhost:8080"), timeout_secs: 30 }
    }

    /// The same configuration pointed at another server.
    pub fn with_url(self, url: String) -> (r: Self)
        ensures
            r.server_url@ == url@,
            r.timeout_secs == self.timeout_secs,
    {
        Self { server_url: url, timeout_secs: self.timeout_secs }
    }

    /// The same configuration under another time limit.
    pub fn with_timeout(self, timeout_secs: u64) -> (r: Self)
        ensures
            r.server_url@ == self.server_url@,
            r.timeout_secs == timeout_secs,
    {
        Self { server_url: self.server_url, timeout_secs }
    }
}

/// The percent-encoded image of a string, as `urlencoding::encode` computes
/// it. The image depends on the input alone.
pub uninterp spec fn percent_encoded(s: Seq<char>) -> Seq<char>;

/// Relies on `urlencoding::encode`: percent-encodes every byte of the UTF-8
/// form except ASCII alphanumerics and `-`, `_`, `.`, `~`; the image is a
/// function of the input alone, and an empty string stays empty.
#[verifier::external_body]
fn percent_encode(s: &str) -> (r: String)
    ensures
        r@ == percent_encoded(s@),
        s@.len() == 0 ==> r@.len() == 0,
{
    urlencoding::encode(s).into_owned()
}

/// The liveness URL of a server.
pub open spec fn spec_health_url(base: Seq<char>) -> Seq<char> {
    base + "/health"@
}

/// The request URL for one resource: `{base}/api/{resource}`, with the diff's
/// commits and the search query percent-encoded into query parameters.
pub open spec fn spec_api_url(base: Seq<char>, resource: ResourceView) -> Seq<char> {
    match resource {
        ResourceView::Tree => base + "/api/tree"@,
        ResourceView::Commits => base + "/api/commits"@,
        ResourceView::Branches => base + "/api/branches"@,
        ResourceView::Diff { from, to } => base + "/api/diff?from="@ + percent_encoded(from)
            + "&to="@ + percent_encoded(to),
        ResourceView::Search { query } => base + "/api/search?q="@ + percent_encoded(query),
    }
}

/// Builds the liveness URL of the configured server.
pub fn health_url(config: &IrminHttpConfig) -> (r: String)
    ensures
        r@ == spec_health_url(config.server_url@),
{
    let mut url = config.server_url.clone();
    url.append("/health");
    url
}

/// Builds the request URL for one resource against the configured server.
pub fn api_url(config: &IrminHttpConfig, resource: &Resource) -> (r: String)
    ensures
        r@ == spec_api_url(config.server_url@, resource@),
{
    let mut url = config.server_url.clone();
    match resource {
        Resource::Tree => {
            url.append("/api/tree");
        },
        Resource::Commits => {
            url.append("/api/commits");
        },
        Resource::Branches => {
            url.append("/api/branches");
        },
        Resource::Diff { from, to } => {
            let from_enc = percent_encode(from.as_str());
            let to_enc = percent_encode(to.as_str());
            url.append("/api/diff?from=");
            url.append(from_enc.as_str());
            url.append("&to=");
            url.append(to_enc.as_str());
            proof {
                assert(url@ =~= spec_api_url(config.server_url@, resource@));
            }
        },
        Resource::Search { query } => {
            let query_enc = percent_encode(query.as_str());
            url.append("/api/search?q=");
            url.append(query_enc.as_str());
            proof {
                assert(url@ =~= spec_api_url(config.server_url@, resource@));
            }
        },
    }
    url
}

/// What one HTTP exchange produced, as the surrounding program saw it.
pub enum HttpOutcome {
    /// A response arrived: whether its status was a success status, and its
    /// body text.
    Response { success: bool, body: String },
    /// No response arrived: whether the request ran out of time, and the
    /// transport's diagnostic.
    NoResponse { timed_out: bool, detail: String },
}

/// Reads an HTTP exchange: a success response yields its body for parsing; a
/// non-success response is rejected with the body as diagnostic; no response
/// is a timeout or an unreachable transport.
pub fn interpret_http_outcome(outcome: HttpOutcome) -> (r: Result<String, StoreError>)
    ensures
        r is Ok <==> outcome matches HttpOutcome::Response { success: true, .. },
        (outcome matches HttpOutcome::Response { success: true, body } ==> r->Ok_0@ == body@),
        (outcome matches HttpOutcome::Response { success: false, body } ==> r->Err_0 matches
            StoreError::RemoteRejected(d) && d@ == "Server error: "@ + body@),
        (outcome matches HttpOutcome::NoResponse { timed_out: true, .. } ==> r->Err_0 is Timeout),
        (outcome matches HttpOutcome::NoResponse { timed_out: false, detail } ==> r->Err_0 matches
            StoreError::TransportUnreachable(d) && d@ == detail@),
{
    match outcome {
        HttpOutcome::Response { success, body } => {
            if success {
                Ok(body)
            } else {
                let mut message = String::from_str("Server error: ");
                message.append(body.as_str());
                Err(StoreError::RemoteRejected(message))
            }
        },
        HttpOutcome::NoResponse { timed_out, detail } => {
            if timed_out {
                Err(StoreError::Timeout)
            } else {
                Err(StoreError::TransportUnreachable(detail))
            }
        },
    }
}

/// Reads a liveness probe: any response with a success status means the
/// server is healthy; anything else is a failure.
pub fn health_verdict(outcome: HttpOutcome) -> (r: Result<(), StoreError>)
    ensures
        r is Ok <==> outcome matches HttpOutcome::Response { success: true, .. },
        (outcome matches HttpOutcome::Response { success: false, .. } ==> r->Err_0 matches
            StoreError::RemoteRejected(d) && d@ == "Irmin server is not healthy"@),
        (outcome matches HttpOutcome::NoResponse { timed_out: true, .. } ==> r->Err_0 is Timeout),
        (outcome matches HttpOutcome::NoResponse { timed_out: false, detail } ==> r->Err_0 matches
            StoreError::TransportUnreachable(d) && d@ == detail@),
{
    match outcome {
        HttpOutcome::Response { success, body: _ } => {
            if success {
                Ok(())
            } else {
                Err(StoreError::RemoteRejected(String::from_str("Irmin server is not healthy")))
            }
        },
        HttpOutcome::NoResponse { timed_out, detail } => {
            if timed_out {
                Err(StoreError::Timeout)
            } else {
                Err(StoreError::TransportUnreachable(detail))
            }
        },
    }
}

} // verus!
