use vstd::prelude::*;

verus! {

// The Janus core error catalogue, as numeric codes.
/// Unauthorized (can only happen when using apisecret/auth token).
pub const JANUS_ERROR_UNAUTHORIZED: u32 = 403;

/// Unauthorized access to a plugin (can only happen when using auth token).
pub const JANUS_ERROR_UNAUTHORIZED_PLUGIN: u32 = 405;

/// Unknown/undocumented error.
pub const JANUS_ERROR_UNKNOWN: u32 = 490;

/// Transport related error.
pub const JANUS_ERROR_TRANSPORT_SPECIFIC: u32 = 450;

/// The request is missing in the message.
pub const JANUS_ERROR_MISSING_REQUEST: u32 = 452;

/// The Janus core does not support this request.
pub const JANUS_ERROR_UNKNOWN_REQUEST: u32 = 453;

/// The payload is not a valid JSON message.
pub const JANUS_ERROR_INVALID_JSON: u32 = 454;

/// The object is not a valid JSON object as expected.
pub const JANUS_ERROR_INVALID_JSON_OBJECT: u32 = 455;

/// A mandatory element is missing in the message.
pub const JANUS_ERROR_MISSING_MANDATORY_ELEMENT: u32 = 456;

/// The request cannot be handled for this webserver path.
pub const JANUS_ERROR_INVALID_REQUEST_PATH: u32 = 457;

/// The session the request refers to doesn't exist.
pub const JANUS_ERROR_SESSION_NOT_FOUND: u32 = 458;

/// The handle the request refers to doesn't exist.
pub const JANUS_ERROR_HANDLE_NOT_FOUND: u32 = 459;

/// The plugin the request wants to talk to doesn't exist.
pub const JANUS_ERROR_PLUGIN_NOT_FOUND: u32 = 460;

/// An error occurred when trying to attach to a plugin and create a handle.
pub const JANUS_ERROR_PLUGIN_ATTACH: u32 = 461;

/// An error occurred when trying to send a message/request to the plugin.
pub const JANUS_ERROR_PLUGIN_MESSAGE: u32 = 462;

/// An error occurred when trying to detach from a plugin and destroy the related handle.
pub const JANUS_ERROR_PLUGIN_DETACH: u32 = 463;

/// The Janus core doesn't support this SDP type.
pub const JANUS_ERROR_JSEP_UNKNOWN_TYPE: u32 = 464;

/// The Session Description provided by the peer is invalid.
pub const JANUS_ERROR_JSEP_INVALID_SDP: u32 = 465;

/// The stream a trickle candidate is for does not exist or is invalid.
pub const JANUS_ERROR_TRICKE_INVALID_STREAM: u32 = 466;

/// A JSON element is of the wrong type (e.g., an integer instead of a string).
pub const JANUS_ERROR_INVALID_ELEMENT_TYPE: u32 = 467;

/// The ID provided to create a new session is already in use.
pub const JANUS_ERROR_SESSION_CONFLICT: u32 = 468;

/// We got an ANSWER to an OFFER we never made.
pub const JANUS_ERROR_UNEXPECTED_ANSWER: u32 = 469;

/// The auth token the request refers to doesn't exist.
pub const JANUS_ERROR_TOKEN_NOT_FOUND: u32 = 470;

/// The current request cannot be handled because of an incompatible WebRTC state.
pub const JANUS_ERROR_WEBRTC_STATE: u32 = 471;

/// The server is currently configured not to accept new sessions.
pub const JANUS_ERROR_NOT_ACCEPTING_SESSIONS: u32 = 472;

/// Proxy error: request to the janus-gateway backend timed out.
pub const JANUS_ERROR_GATEWAY_TIMED_OUT: u32 = 500;

/// Proxy error: connecting the websocket to the janus-gateway backend failed.
pub const JANUS_ERROR_GATEWAY_CONNECTION_FAILED: u32 = 501;

/// Proxy error: no janus-gateway instance available.
pub const JANUS_ERROR_GATEWAY_UNAVAILABLE: u32 = 502;

/// Proxy error: the janus-gateway connection closed.
pub const JANUS_ERROR_GATEWAY_CONNECTION_CLOSED: u32 = 503;

/// Proxy error: programmer error, or unexpected condition.
pub const JANUS_ERROR_GATEWAY_INTERNAL_ERROR: u32 = 599;

/// The upstream Janus error catalogue as an enumeration, for callers that
/// prefer a closed set of codes over bare numbers.
#[allow(non_camel_case_types)]
#[derive(Debug, Clone, Copy, PartialEq, Eq, Structural)]
pub enum JanusErrorCode {
    JANUS_ERROR_UNAUTHORIZED,
    JANUS_ERROR_UNAUTHORIZED_PLUGIN,
    JANUS_ERROR_UNKNOWN,
    JANUS_ERROR_TRANSPORT_SPECIFIC,
    JANUS_ERROR_MISSING_REQUEST,
    JANUS_ERROR_UNKNOWN_REQUEST,
    JANUS_ERROR_INVALID_JSON,
    JANUS_ERROR_INVALID_JSON_OBJECT,
    JANUS_ERROR_MISSING_MANDATORY_ELEMENT,
    JANUS_ERROR_INVALID_REQUEST_PATH,
    JANUS_ERROR_SESSION_NOT_FOUND,
    JANUS_ERROR_HANDLE_NOT_FOUND,
    JANUS_ERROR_PLUGIN_NOT_FOUND,
    JANUS_ERROR_PLUGIN_ATTACH,
    JANUS_ERROR_PLUGIN_MESSAGE,
    JANUS_ERROR_PLUGIN_DETACH,
    JANUS_ERROR_JSEP_UNKNOWN_TYPE,
    JANUS_ERROR_JSEP_INVALID_SDP,
    JANUS_ERROR_TRICKE_INVALID_STREAM,
    JANUS_ERROR_INVALID_ELEMENT_TYPE,
    JANUS_ERROR_SESSION_CONFLICT,
    JANUS_ERROR_UNEXPECTED_ANSWER,
    JANUS_ERROR_TOKEN_NOT_FOUND,
    JANUS_ERROR_WEBRTC_STATE,
    JANUS_ERROR_NOT_ACCEPTING_SESSIONS,
}

impl JanusErrorCode {
    /// The numeric code a variant stands for.
    pub open spec fn spec_code(self) -> u32 {
        match self {
            JanusErrorCode::JANUS_ERROR_UNAUTHORIZED => JANUS_ERROR_UNAUTHORIZED,
            JanusErrorCode::JANUS_ERROR_UNAUTHORIZED_PLUGIN => JANUS_ERROR_UNAUTHORIZED_PLUGIN,
            JanusErrorCode::JANUS_ERROR_UNKNOWN => JANUS_ERROR_UNKNOWN,
            JanusErrorCode::JANUS_ERROR_TRANSPORT_SPECIFIC => JANUS_ERROR_TRANSPORT_SPECIFIC,
            JanusErrorCode::JANUS_ERROR_MISSING_REQUEST => JANUS_ERROR_MISSING_REQUEST,
            JanusErrorCode::JANUS_ERROR_UNKNOWN_REQUEST => JANUS_ERROR_UNKNOWN_REQUEST,
            JanusErrorCode::JANUS_ERROR_INVALID_JSON => JANUS_ERROR_INVALID_JSON,
            JanusErrorCode::JANUS_ERROR_INVALID_JSON_OBJECT => JANUS_ERROR_INVALID_JSON_OBJECT,
            JanusErrorCode::JANUS_ERROR_MISSING_MANDATORY_ELEMENT => JANUS_ERROR_MISSING_MANDATORY_ELEMENT,
            JanusErrorCode::JANUS_ERROR_INVALID_REQUEST_PATH => JANUS_ERROR_INVALID_REQUEST_PATH,
            JanusErrorCode::JANUS_ERROR_SESSION_NOT_FOUND => JANUS_ERROR_SESSION_NOT_FOUND,
            JanusErrorCode::JANUS_ERROR_HANDLE_NOT_FOUND => JANUS_ERROR_HANDLE_NOT_FOUND,
            JanusErrorCode::JANUS_ERROR_PLUGIN_NOT_FOUND => JANUS_ERROR_PLUGIN_NOT_FOUND,
            JanusErrorCode::JANUS_ERROR_PLUGIN_ATTACH => JANUS_ERROR_PLUGIN_ATTACH,
            JanusErrorCode::JANUS_ERROR_PLUGIN_MESSAGE => JANUS_ERROR_PLUGIN_MESSAGE,
            JanusErrorCode::JANUS_ERROR_PLUGIN_DETACH => JANUS_ERROR_PLUGIN_DETACH,
            JanusErrorCode::JANUS_ERROR_JSEP_UNKNOWN_TYPE => JANUS_ERROR_JSEP_UNKNOWN_TYPE,
            JanusErrorCode::JANUS_ERROR_JSEP_INVALID_SDP => JANUS_ERROR_JSEP_INVALID_SDP,
            JanusErrorCode::JANUS_ERROR_TRICKE_INVALID_STREAM => JANUS_ERROR_TRICKE_INVALID_STREAM,
            JanusErrorCode::JANUS_ERROR_INVALID_ELEMENT_TYPE => JANUS_ERROR_INVALID_ELEMENT_TYPE,
            JanusErrorCode::JANUS_ERROR_SESSION_CONFLICT => JANUS_ERROR_SESSION_CONFLICT,
            JanusErrorCode::JANUS_ERROR_UNEXPECTED_ANSWER => JANUS_ERROR_UNEXPECTED_ANSWER,
            JanusErrorCode::JANUS_ERROR_TOKEN_NOT_FOUND => JANUS_ERROR_TOKEN_NOT_FOUND,
            JanusErrorCode::JANUS_ERROR_WEBRTC_STATE => JANUS_ERROR_WEBRTC_STATE,
            JanusErrorCode::JANUS_ERROR_NOT_ACCEPTING_SESSIONS => JANUS_ERROR_NOT_ACCEPTING_SESSIONS,
        }
    }

    /// The numeric code a variant stands for.
    pub fn code(self) -> (r: u32)
        ensures
            r == self.spec_code(),
    {
        match self {
            JanusErrorCode::JANUS_ERROR_UNAUTHORIZED => JANUS_ERROR_UNAUTHORIZED,
            JanusErrorCode::JANUS_ERROR_UNAUTHORIZED_PLUGIN => JANUS_ERROR_UNAUTHORIZED_PLUGIN,
            JanusErrorCode::JANUS_ERROR_UNKNOWN => JANUS_ERROR_UNKNOWN,
            JanusErrorCode::JANUS_ERROR_TRANSPORT_SPECIFIC => JANUS_ERROR_TRANSPORT_SPECIFIC,
            JanusErrorCode::JANUS_ERROR_MISSING_REQUEST => JANUS_ERROR_MISSING_REQUEST,
            JanusErrorCode::JANUS_ERROR_UNKNOWN_REQUEST => JANUS_ERROR_UNKNOWN_REQUEST,
            JanusErrorCode::JANUS_ERROR_INVALID_JSON => JANUS_ERROR_INVALID_JSON,
            JanusErrorCode::JANUS_ERROR_INVALID_JSON_OBJECT => JANUS_ERROR_INVALID_JSON_OBJECT,
            JanusErrorCode::JANUS_ERROR_MISSING_MANDATORY_ELEMENT => JANUS_ERROR_MISSING_MANDATORY_ELEMENT,
            JanusErrorCode::JANUS_ERROR_INVALID_REQUEST_PATH => JANUS_ERROR_INVALID_REQUEST_PATH,
            JanusErrorCode::JANUS_ERROR_SESSION_NOT_FOUND => JANUS_ERROR_SESSION_NOT_FOUND,
            JanusErrorCode::JANUS_ERROR_HANDLE_NOT_FOUND => JANUS_ERROR_HANDLE_NOT_FOUND,
            JanusErrorCode::JANUS_ERROR_PLUGIN_NOT_FOUND => JANUS_ERROR_PLUGIN_NOT_FOUND,
            JanusErrorCode::JANUS_ERROR_PLUGIN_ATTACH => JANUS_ERROR_PLUGIN_ATTACH,
            JanusErrorCode::JANUS_ERROR_PLUGIN_MESSAGE => JANUS_ERROR_PLUGIN_MESSAGE,
            JanusErrorCode::JANUS_ERROR_PLUGIN_DETACH => JANUS_ERROR_PLUGIN_DETACH,
            JanusErrorCode::JANUS_ERROR_JSEP_UNKNOWN_TYPE => JANUS_ERROR_JSEP_UNKNOWN_TYPE,
            JanusErrorCode::JANUS_ERROR_JSEP_INVALID_SDP => JANUS_ERROR_JSEP_INVALID_SDP,
            JanusErrorCode::JANUS_ERROR_TRICKE_INVALID_STREAM => JANUS_ERROR_TRICKE_INVALID_STREAM,
            JanusErrorCode::JANUS_ERROR_INVALID_ELEMENT_TYPE => JANUS_ERROR_INVALID_ELEMENT_TYPE,
            JanusErrorCode::JANUS_ERROR_SESSION_CONFLICT => JANUS_ERROR_SESSION_CONFLICT,
            JanusErrorCode::JANUS_ERROR_UNEXPECTED_ANSWER => JANUS_ERROR_UNEXPECTED_ANSWER,
            JanusErrorCode::JANUS_ERROR_TOKEN_NOT_FOUND => JANUS_ERROR_TOKEN_NOT_FOUND,
            JanusErrorCode::JANUS_ERROR_WEBRTC_STATE => JANUS_ERROR_WEBRTC_STATE,
            JanusErrorCode::JANUS_ERROR_NOT_ACCEPTING_SESSIONS => JANUS_ERROR_NOT_ACCEPTING_SESSIONS,
        }
    }
}

/// An error as reported inside a Janus `error` response: a numeric code and a
/// human-readable reason.
#[derive(Debug, PartialEq)]
pub struct JanusError {
    pub code: u32,
    pub reason: String,
}

impl JanusError {
    pub fn new(code: u32, reason: String) -> (r: JanusError)
        ensures
            r.code == code,
            r.reason == reason,
    {
        JanusError { code, reason }
    }

    /// A copy of this error.
    pub fn duplicate(&self) -> (r: JanusError)
        ensures
            r == *self,
    {
        JanusError { code: self.code, reason: self.reason.clone() }
    }

    /// Maps a JSON decode failure onto the Janus error catalogue the way the
    /// proxy reports it: malformed JSON is 455, a structurally valid document
    /// with missing or mistyped fields is 456.
    pub fn from_json_parse_error(e: serde_json::Error) -> (r: JanusError)
        ensures
            r.code == JANUS_ERROR_INVALID_JSON_OBJECT || r.code
                == JANUS_ERROR_MISSING_MANDATORY_ELEMENT,
            r.reason@.len() > 0,
    {
        proof {
            reveal_strlit("Validation error: ");
            reveal_strlit("Invalid json object");
            assert("Validation error: "@.len() == 18);
            assert("Invalid json object"@.len() == 19);
        }
        match classify_json_error(&e) {
            JsonErrorKind::Data => JanusError::new(
                JANUS_ERROR_MISSING_MANDATORY_ELEMENT,
                String::from_str("Validation error: ").concat(describe_json_error(&e).as_str()),
            ),
            _ => JanusError::new(
                JANUS_ERROR_INVALID_JSON_OBJECT,
                String::from_str("Invalid json object"),
            ),
        }
    }

    /// Maps a JSON encode failure onto the catch-all unknown error code.
    pub fn from_json_stringify_error(e: serde_json::Error) -> (r: JanusError)
        ensures
            r.code == JANUS_ERROR_UNKNOWN,
    {
        JanusError::new(JANUS_ERROR_UNKNOWN, describe_json_error(&e))
    }
}

/// The broad category of a JSON decode failure.
#[derive(Debug, Clone, Copy, PartialEq, Eq, Structural)]
pub enum JsonErrorKind {
    Syntax,
    Io,
    Data,
    Eof,
}

#[verifier::external_type_specification]
#[verifier::external_body]
pub struct ExSerdeJsonError(serde_json::Error);

/// Relies on serde_json::Error::classify, which sorts a failure into the
/// syntax / io / data / eof categories.
#[verifier::external_body]
pub(crate) fn classify_json_error(e: &serde_json::Error) -> JsonErrorKind {
    match e.classify() {
        serde_json::error::Category::Syntax => JsonErrorKind::Syntax,
        serde_json::error::Category::Io => JsonErrorKind::Io,
        serde_json::error::Category::Data => JsonErrorKind::Data,
        serde_json::error::Category::Eof => JsonErrorKind::Eof,
    }
}

/// Relies on serde_json::Error's Display impl for the failure's description.
#[verifier::external_body]
pub(crate) fn describe_json_error(e: &serde_json::Error) -> String {
    format!("{}", e)
}

} // verus!
