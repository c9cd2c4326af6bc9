//! The pre-flight probe of the remote replica: a URL scheme check, then one
//! authenticated query round-trip whose outcome is classified here.

use vstd::prelude::*;
use crate::sync_config::{json_quote, json_string_text};
use crate::text::{concat, has_prefix, starts_with};

verus! {

/// Seconds that the probe may take before it counts as a network failure.
pub const PROBE_TIMEOUT_SECS: u64 = 30;

/// Why a remote replica was refused.
pub enum ValidationError {
    /// The URL has neither of the accepted schemes.
    Format,
    /// The server refused the token (HTTP 401 or 403).
    Authentication,
    /// The server answered with another status outside 2xx; the status as
    /// the HTTP client prints it (code and reason, e.g. `500 Internal Server Error`).
    Server(String),
    /// No answer came back (DNS, TLS, refused connection, timeout).
    Network(String),
}

/// The HTTP request of the probe: a POST of a read-only query.
pub struct ProbeRequest {
    pub url: String,
    pub authorization: String,
    pub content_type: String,
    pub body: String,
    pub timeout_secs: u64,
}

/// A probe request, over character sequences.
pub struct ProbeView {
    pub url: Seq<char>,
    pub authorization: Seq<char>,
    pub content_type: Seq<char>,
    pub body: Seq<char>,
    pub timeout_secs: u64,
}

impl View for ProbeRequest {
    type V = ProbeView;

    open spec fn view(&self) -> ProbeView {
        ProbeView {
            url: self.url@,
            authorization: self.authorization@,
            content_type: self.content_type@,
            body: self.body@,
            timeout_secs: self.timeout_secs,
        }
    }
}

/// What came back from sending the probe.
pub enum ProbeOutcome {
    /// The server answered: the status code, and the status as the HTTP
    /// client prints it (code and reason, e.g. `401 Unauthorized`).
    Responded { status: u16, text: String },
    /// The request failed below HTTP; the transport's message.
    TransportFailed(String),
}

/// The URL has the sync-protocol scheme or the secure-HTTP scheme.
pub open spec fn scheme_accepted(url: Seq<char>) -> bool {
    has_prefix(url, "libsql://"@) || has_prefix(url, "https://"@)
}

/// The URL that the probe is sent to: the sync-protocol scheme becomes
/// secure HTTP, anything else is kept.
pub open spec fn probe_url(url: Seq<char>) -> Seq<char> {
    if has_prefix(url, "libsql://"@) {
        "https://"@ + url.skip(9)
    } else {
        url
    }
}

/// The probe's body: a JSON request to run `SELECT 1`.
pub open spec fn probe_body() -> Seq<char> {
    "{\"statements\":["@ + json_string_text("SELECT 1"@) + "]}"@
}

/// The probe for `url` and `token`: a POST to the normalised URL with the
/// token as a bearer credential.
pub open spec fn probe_for(url: Seq<char>, token: Seq<char>) -> ProbeView {
    ProbeView {
        url: probe_url(url),
        authorization: "Bearer "@ + token,
        content_type: "application/json"@,
        body: probe_body(),
        timeout_secs: PROBE_TIMEOUT_SECS,
    }
}

/// How an outcome of the probe is judged.
pub open spec fn probe_verdict(o: ProbeOutcome) -> Result<(), ValidationError> {
    match o {
        ProbeOutcome::Responded { status, text } => {
            if status == 401 || status == 403 {
                Err(ValidationError::Authentication)
            } else if status < 200 || status >= 300 {
                Err(ValidationError::Server(text))
            } else {
                Ok(())
            }
        },
        ProbeOutcome::TransportFailed(m) => Err(ValidationError::Network(m)),
    }
}

/// The probe to send for `url` and `token`, or `Format` (and no request at
/// all) when the URL's scheme is neither accepted one.
pub fn validation_request(url: &str, token: &str) -> (r: Result<ProbeRequest, ValidationError>)
    ensures
        !scheme_accepted(url@) <==> r matches Err(ValidationError::Format),
        r is Err ==> r matches Err(ValidationError::Format),
        r matches Ok(req) ==> req@ == probe_for(url@, token@),
{
    let sync_scheme = starts_with(url, "libsql://");
    let https_scheme = starts_with(url, "https://");
    if !sync_scheme && !https_scheme {
        return Err(ValidationError::Format);
    }
    let target = if sync_scheme {
        proof {
            reveal_strlit("libsql://");
        }
        let n = url.unicode_len();
        let rest = url.substring_char(9, n);
        assert(rest@ =~= url@.skip(9));
        concat("https://", rest)
    } else {
        String::from_str(url)
    };
    let body = concat("{\"statements\":[", json_quote("SELECT 1").as_str());
    let body = concat(body.as_str(), "]}");
    Ok(
        ProbeRequest {
            url: target,
            authorization: concat("Bearer ", token),
            content_type: String::from_str("application/json"),
            body,
            timeout_secs: PROBE_TIMEOUT_SECS,
        },
    )
}

/// Judges what came back from the probe: 401 and 403 refuse the token, any
/// other status outside 2xx is a server error, a failure below HTTP is a
/// network error.
pub fn classify_probe(outcome: ProbeOutcome) -> (r: Result<(), ValidationError>)
    ensures
        r == probe_verdict(outcome),
{
    match outcome {
        ProbeOutcome::Responded { status, text } => {
            if status == 401 || status == 403 {
                Err(ValidationError::Authentication)
            } else if status < 200 || status >= 300 {
                Err(ValidationError::Server(text))
            } else {
                Ok(())
            }
        },
        ProbeOutcome::TransportFailed(m) => Err(ValidationError::Network(m)),
    }
}

impl ValidationError {
    /// A description of the error for the user.
    pub fn message(&self) -> (r: String)
        ensures
            r@ == match self {
                ValidationError::Format => "URL must start with libsql:// or https://"@,
                ValidationError::Authentication => "Authentication failed (Invalid Token)"@,
                ValidationError::Server(s) => "Server returned error: "@ + s@,
                ValidationError::Network(m) => "Connection failed: "@ + m@,
            },
    {
        match self {
            ValidationError::Format => String::from_str("URL must start with libsql:// or https://"),
            ValidationError::Authentication => String::from_str(
                "Authentication failed (Invalid Token)",
            ),
            ValidationError::Server(s) => concat("Server returned error: ", s.as_str()),
            ValidationError::Network(m) => concat("Connection failed: ", m.as_str()),
        }
    }
}

} // verus!
