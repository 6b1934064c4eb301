use vstd::prelude::*;
use vstd::string::*;

verus! {

/// The error of `String::from_utf8`, declared so that the library can carry it.
#[verifier::external_type_specification]
#[verifier::external_body]
pub struct ExFromUtf8Error(std::string::FromUtf8Error);

/// The error of serde_json, declared so that the library can carry it.
#[verifier::external_type_specification]
#[verifier::external_body]
pub struct ExJsonError(serde_json::Error);

/// Error type for the operations of the client.
pub enum FetchError {
    /// Invalid URL.
    Url(String),
    /// HTTP transport error (connection, DNS, TLS, etc.).
    Transport(String),
    /// Response body is not valid UTF-8.
    Utf8(std::string::FromUtf8Error),
    /// JSON deserialization failed.
    Json(serde_json::Error),
}

/// The text that `std::string::FromUtf8Error` displays.
pub uninterp spec fn spec_utf8_error_text(e: std::string::FromUtf8Error) -> Seq<char>;

/// The bytes that a `std::string::FromUtf8Error` hands back
/// (`FromUtf8Error::as_bytes`): those that failed to convert.
pub uninterp spec fn spec_utf8_error_bytes(e: std::string::FromUtf8Error) -> Seq<u8>;

/// The text that `serde_json::Error` displays.
pub uninterp spec fn spec_json_error_text(e: serde_json::Error) -> Seq<char>;

/// Calls the `Display` impl of `std::string::FromUtf8Error`.
///
/// Claimed: the text is the one named by `spec_utf8_error_text` for the error.
#[verifier::external_body]
fn utf8_error_text(e: &std::string::FromUtf8Error) -> (t: String)
    ensures
        t@ == spec_utf8_error_text(*e),
{
    e.to_string()
}

/// Calls the `Display` impl of `serde_json::Error`.
///
/// Claimed: the text is the one named by `spec_json_error_text` for the error.
#[verifier::external_body]
fn json_error_text(e: &serde_json::Error) -> (t: String)
    ensures
        t@ == spec_json_error_text(*e),
{
    e.to_string()
}

/// The text that an error displays: the variant's heading, then its message
/// or the display of the error it wraps.
pub open spec fn message_text(e: FetchError) -> Seq<char> {
    match e {
        FetchError::Url(m) => "URL error: "@ + m@,
        FetchError::Transport(m) => "HTTP transport error: "@ + m@,
        FetchError::Utf8(x) => "UTF-8 error: "@ + spec_utf8_error_text(x),
        FetchError::Json(x) => "JSON error: "@ + spec_json_error_text(x),
    }
}

impl FetchError {
    /// The text of the error, as its display shows it.
    pub fn to_string(&self) -> (s: String)
        ensures
            s@ == message_text(*self),
    {
        match self {
            FetchError::Url(msg) => String::from_str("URL error: ").concat(msg.as_str()),
            FetchError::Transport(msg) => String::from_str("HTTP transport error: ").concat(msg.as_str()),
            FetchError::Utf8(e) => {
                let text = utf8_error_text(e);
                String::from_str("UTF-8 error: ").concat(text.as_str())
            },
            FetchError::Json(e) => {
                let text = json_error_text(e);
                String::from_str("JSON error: ").concat(text.as_str())
            },
        }
    }

    /// Whether the error is a URL error.
    pub fn is_url(&self) -> (b: bool)
        ensures
            b == (*self is Url),
    {
        match self {
            FetchError::Url(_) => true,
            _ => false,
        }
    }

    /// Whether the error is a transport error.
    pub fn is_transport(&self) -> (b: bool)
        ensures
            b == (*self is Transport),
    {
        match self {
            FetchError::Transport(_) => true,
            _ => false,
        }
    }
}

impl From<serde_json::Error> for FetchError {
    fn from(e: serde_json::Error) -> (r: Self) {
        FetchError::Json(e)
    }
}

impl vstd::std_specs::convert::FromSpecImpl<serde_json::Error> for FetchError {
    open spec fn obeys_from_spec() -> bool {
        true
    }

    open spec fn from_spec(e: serde_json::Error) -> Self {
        FetchError::Json(e)
    }
}

impl From<std::string::FromUtf8Error> for FetchError {
    fn from(e: std::string::FromUtf8Error) -> (r: Self) {
        FetchError::Utf8(e)
    }
}

impl vstd::std_specs::convert::FromSpecImpl<std::string::FromUtf8Error> for FetchError {
    open spec fn obeys_from_spec() -> bool {
        true
    }

    open spec fn from_spec(e: std::string::FromUtf8Error) -> Self {
        FetchError::Utf8(e)
    }
}

} // verus!
