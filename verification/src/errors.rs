//! The errors that a request can end in, and the text that each one shows.

use vstd::prelude::*;
use vstd::string::StringExecFns;

use crate::bindings::{json_quoted, json_string_literal};

verus! {

/// Everything that can go wrong while a request or a load/save is handled.
/// The variants that wrap a failure of an outside library keep that
/// failure's own message.
#[derive(Debug, Clone)]
pub enum CommonError {
    /// A user or event identifier that names nothing.
    InvalidId,
    /// The template engine failed.
    Template(String),
    /// Building the HTTP response failed.
    WarpBody(String),
    /// Reading or writing a file failed.
    Io(String),
    /// Encoding or decoding JSON failed.
    SerdeJson(String),
    /// Moving the temporary file into place failed.
    TempfilePersist(String),
    /// A numeric conversion failed.
    Cast(String),
    /// Flushing the buffered writer failed.
    IntoInner(String),
}

/// The text of an error: a prefix that says where it happened, then the
/// message of the failure.
pub open spec fn error_message(e: CommonError) -> Seq<char> {
    match e {
        CommonError::InvalidId => "invalid id"@,
        CommonError::Template(m) => "template engine -> "@ + m@,
        CommonError::WarpBody(m) => "warp body -> "@ + m@,
        CommonError::Io(m) => "IO -> "@ + m@,
        CommonError::SerdeJson(m) => "serde json -> "@ + m@,
        CommonError::TempfilePersist(m) => "persist error -> "@ + m@,
        CommonError::Cast(m) => "cast -> "@ + m@,
        CommonError::IntoInner(m) => "into inner -> "@ + m@,
    }
}

fn prefixed(prefix: &str, m: &String) -> (r: String)
    ensures
        r@ == prefix@ + m@,
{
    let r = String::from_str(prefix);
    r.concat(m.as_str())
}

impl CommonError {
    /// The text of the error.
    pub fn message(&self) -> (r: String)
        ensures
            r@ == error_message(*self),
    {
        match self {
            CommonError::InvalidId => String::from_str("invalid id"),
            CommonError::Template(m) => prefixed("template engine -> ", m),
            CommonError::WarpBody(m) => prefixed("warp body -> ", m),
            CommonError::Io(m) => prefixed("IO -> ", m),
            CommonError::SerdeJson(m) => prefixed("serde json -> ", m),
            CommonError::TempfilePersist(m) => prefixed("persist error -> ", m),
            CommonError::Cast(m) => prefixed("cast -> ", m),
            CommonError::IntoInner(m) => prefixed("into inner -> ", m),
        }
    }
}

/// The body of an error reply: a JSON object with the one member `error`,
/// whose value is the message, written as serde_json writes it.
pub open spec fn error_json(message: Seq<char>) -> Seq<char> {
    "{\"error\":"@ + json_quoted(message) + "}"@
}

/// Writes the JSON body that carries an error message.
pub fn error_json_string(message: &str) -> (r: Result<String, serde_json::Error>)
    ensures
        match r {
            Ok(v) => v@ == error_json(message@),
            Err(_) => false,
        },
{
    match json_string_literal(message) {
        Ok(quoted) => {
            let body = String::from_str("{\"error\":");
            let body = body.concat(quoted.as_str());
            let body = body.concat("}");
            Ok(body)
        },
        Err(e) => Err(e),
    }
}

/// What the web framework knows of a refused request.
pub struct RejectionFacts {
    /// Every route refused the request as not matching it.
    pub not_found: bool,
    /// A handler failed with this error.
    pub error: Option<CommonError>,
    /// A header was malformed.
    pub invalid_header: bool,
    /// The query string was malformed.
    pub invalid_query: bool,
    /// The request had no length.
    pub length_required: bool,
    /// The path matched but the method did not.
    pub method_not_allowed: bool,
}

/// A reply: its status code and its body.
pub struct Reply {
    pub status: u16,
    pub body: String,
}

/// The reply to a refused request: 404 when nothing matched; 400 with the
/// JSON error body when a handler failed; 501 for a malformed header or
/// query, a missing length or a wrong method; 500 for anything else. Only
/// the 400 reply has a body.
pub fn handle_rejection(facts: &RejectionFacts) -> (r: Reply)
    ensures
        facts.not_found ==> r.status == 404 && r.body@ == Seq::<char>::empty(),
        !facts.not_found && facts.error is Some ==> r.status == 400 && r.body@ == error_json(
            error_message(facts.error->0),
        ),
        !facts.not_found && facts.error is None ==> r.body@ == Seq::<char>::empty() && r.status == (
        if facts.invalid_header || facts.invalid_query || facts.length_required
            || facts.method_not_allowed {
            501u16
        } else {
            500u16
        }),
{
    if facts.not_found {
        Reply { status: 404, body: String::new() }
    } else if let Some(e) = &facts.error {
        let message = e.message();
        match error_json_string(message.as_str()) {
            Ok(body) => Reply { status: 400, body },
            Err(_) => Reply { status: 500, body: String::new() },
        }
    } else if facts.invalid_header || facts.invalid_query || facts.length_required
        || facts.method_not_allowed {
        Reply { status: 501, body: String::new() }
    } else {
        Reply { status: 500, body: String::new() }
    }
}

} // verus!
