//! The single error surface of the binding. Every internal failure is
//! wrapped into this type before it crosses the public boundary.

use vstd::prelude::*;

verus! {

/// Everything that can go wrong before or while a request is issued.
///
/// Transport status codes are not errors: a response envelope carries its
/// status through unchanged, and only the inability to complete the HTTP
/// exchange surfaces as `Transport`.
#[derive(Debug, Clone)]
pub enum OpenSkyError {
    /// An identifier string of the wrong length or with a non-hex
    /// character; carries the rejected input.
    InvalidIdentifier(String),
    /// A request was built without a required field; carries the name of
    /// the first unset one.
    MissingField(String),
    /// The base URL joined with a relative path is not a valid URL;
    /// carries the rejected URL text.
    UrlResolution(String),
    /// A credential produced a header value with a character that no
    /// header may carry; carries the rejected value.
    Header(String),
    /// The transport could not complete the HTTP exchange; carries its
    /// description of the failure.
    Transport(String),
}

impl OpenSkyError {
    /// A short name for the error's kind, for callers that log or
    /// display failures.
    pub fn kind(&self) -> (r: &'static str)
        ensures
            r@ == match self {
                OpenSkyError::InvalidIdentifier(_) => "invalid identifier"@,
                OpenSkyError::MissingField(_) => "missing field"@,
                OpenSkyError::UrlResolution(_) => "url resolution"@,
                OpenSkyError::Header(_) => "header"@,
                OpenSkyError::Transport(_) => "transport"@,
            },
    {
        match self {
            OpenSkyError::InvalidIdentifier(_) => "invalid identifier",
            OpenSkyError::MissingField(_) => "missing field",
            OpenSkyError::UrlResolution(_) => "url resolution",
            OpenSkyError::Header(_) => "header",
            OpenSkyError::Transport(_) => "transport",
        }
    }
}

} // verus!
