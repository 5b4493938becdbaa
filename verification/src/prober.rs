//! The status prober: where to ask the service for its version, and what to
//! make of its answer. A probe that fails in any way yields no version; it
//! never decides whether the backend runs.

use vstd::prelude::*;
use vstd::string::StringExecFns;
use crate::json::{error_text, json_document, json_of, member, parse_document, text, Json};
use crate::text::{decimal, decimal_string};

verus! {

/// Seconds after which a probe is given up.
pub const PROBE_TIMEOUT_SECS: u64 = 2;

/// What came of the one request to the version endpoint.
#[derive(Debug, Clone, PartialEq, Eq)]
pub enum Reply {
    /// No answer came: the connection was refused or the time ran out. Holds
    /// the transport's words.
    Unreachable { cause: String },
    /// The service answered with this status code and body.
    Answered { status: u16, body: Vec<u8> },
}

/// Why a probe yields no version.
#[derive(Debug, Clone, PartialEq, Eq)]
pub enum ProbeError {
    /// No answer came; holds the transport's words.
    Unreachable(String),
    /// The service answered with a status outside 200 to 299.
    Rejected(u16),
    /// The body is no JSON document; holds the parser's words.
    Malformed(String),
    /// The document has no member `version` that is a string.
    MissingVersion,
}

/// The address of the version endpoint of a service on `port`.
pub open spec fn version_url(port: u16) -> Seq<char> {
    "http://127.0.0.1:"@ + decimal(port as nat) + "/version"@
}

/// Whether `status` reports success.
pub open spec fn is_success(status: u16) -> bool {
    200 <= status < 300
}

/// The version that a document reports: its member `version` where that is
/// a string.
pub open spec fn version_in(document: Json) -> Option<Seq<char>> {
    match document.member("version"@) {
        Some(found) => found.text(),
        None => None,
    }
}

/// The version that a reply yields: that of the document in the body of a
/// successful answer.
pub open spec fn probed_version(reply: Reply) -> Option<Seq<char>> {
    match reply {
        Reply::Unreachable { .. } => None,
        Reply::Answered { status, body } => if is_success(status) {
            match json_document(body@) {
                Some(document) => version_in(document),
                None => None,
            }
        } else {
            None
        },
    }
}

impl ProbeError {
    /// The text that describes this failure.
    pub open spec fn spec_message(self) -> Seq<char> {
        match self {
            ProbeError::Unreachable(cause) => "Failed to connect to backend: "@ + cause@,
            ProbeError::Rejected(status) => "Backend answered with status "@ + decimal(
                status as nat,
            ),
            ProbeError::Malformed(cause) => "Failed to parse response: "@ + cause@,
            ProbeError::MissingVersion => "No version in response"@,
        }
    }

    /// Renders the failure as a descriptive message.
    pub fn message(&self) -> (text: String)
        ensures
            text@ == self.spec_message(),
    {
        match self {
            ProbeError::Unreachable(cause) => String::from_str(
                "Failed to connect to backend: ",
            ).concat(cause.as_str()),
            ProbeError::Rejected(status) => {
                let code = decimal_string(*status as u64);
                String::from_str("Backend answered with status ").concat(code.as_str())
            },
            ProbeError::Malformed(cause) => String::from_str("Failed to parse response: ").concat(
                cause.as_str(),
            ),
            ProbeError::MissingVersion => String::from_str("No version in response"),
        }
    }
}

/// Builds the address of the version endpoint of a service on `port`.
pub fn build_version_url(port: u16) -> (url: String)
    ensures
        url@ == version_url(port),
{
    let digits = decimal_string(port as u64);
    let mut url = String::from_str("http://127.0.0.1:");
    url.append(digits.as_str());
    url.append("/version");
    url
}

/// Reads the version out of a parsed document: the member `version` where
/// the document is an object that has one and it is a string.
pub fn version_of_document(document: &serde_json::Value) -> (r: Result<String, ProbeError>)
    ensures
        match version_in(json_of(*document)) {
            Some(version) => r matches Ok(v) && v@ == version,
            None => r == Err::<String, ProbeError>(ProbeError::MissingVersion),
        },
{
    match member(document, "version") {
        Some(found) => match text(found) {
            Some(version) => Ok(String::from_str(version)),
            None => Err(ProbeError::MissingVersion),
        },
        None => Err(ProbeError::MissingVersion),
    }
}

/// Reads the version out of a reply. It is there if and only if the service
/// answered with a success status and a JSON object whose member `version`
/// is a string; each other case has its own error.
pub fn get_backend_version(reply: &Reply) -> (r: Result<String, ProbeError>)
    ensures
        match probed_version(*reply) {
            Some(version) => r matches Ok(v) && v@ == version,
            None => r is Err,
        },
        match *reply {
            Reply::Unreachable { cause } => r == Err::<String, ProbeError>(
                ProbeError::Unreachable(cause),
            ),
            Reply::Answered { status, body } => if !is_success(status) {
                r == Err::<String, ProbeError>(ProbeError::Rejected(status))
            } else if json_document(body@).is_none() {
                r is Err && r->Err_0 is Malformed
            } else if probed_version(*reply).is_none() {
                r == Err::<String, ProbeError>(ProbeError::MissingVersion)
            } else {
                r is Ok
            },
        },
{
    match reply {
        Reply::Unreachable { cause } => Err(ProbeError::Unreachable(cause.clone())),
        Reply::Answered { status, body } => {
            if *status < 200 || *status >= 300 {
                return Err(ProbeError::Rejected(*status));
            }
            match parse_document(body.as_slice()) {
                Ok(document) => version_of_document(&document),
                Err(error) => Err(ProbeError::Malformed(error_text(&error))),
            }
        },
    }
}

/// The version to report for a reply: the one it yields, or none. A failed
/// probe is no error of the status query.
pub fn version_of(reply: &Reply) -> (version: Option<String>)
    ensures
        match probed_version(*reply) {
            Some(expected) => version matches Some(v) && v@ == expected,
            None => version is None,
        },
{
    match get_backend_version(reply) {
        Ok(version) => Some(version),
        Err(_) => None,
    }
}

} // verus!
