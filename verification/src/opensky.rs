//! The dispatcher: owns the base URL and the optional credential,
//! resolves endpoint paths, and prepares requests for a transport.
//!
//! Request preparation and response-envelope assembly are the one shared
//! protocol; a blocking and a suspending transport adapter both execute
//! the prepared value, so identical server replies yield identical
//! envelopes on either path.

use vstd::prelude::*;

use crate::error::OpenSkyError;
use crate::params::{query_string_of, Endpoint, Method, QueryParams};

verus! {

/// The encoding that base64's `STANDARD_NO_PAD` engine gives to the
/// UTF-8 bytes of a string: standard alphabet, no padding.
pub uninterp spec fn base64_nopad_of(s: Seq<char>) -> Seq<char>;

/// Whether url's parser accepts the text as an absolute URL.
pub uninterp spec fn url_parse_ok(s: Seq<char>) -> bool;

/// Whether `c` belongs to the standard base64 alphabet.
pub open spec fn is_base64_char(c: char) -> bool {
    ('A' <= c && c <= 'Z') || ('a' <= c && c <= 'z') || ('0' <= c && c <= '9') || c == '+' || c
        == '/'
}

/// Relies on base64's `Engine::encode` with the `STANDARD_NO_PAD`
/// engine: the result is a function of the input bytes alone, is empty
/// for empty input, and is drawn from the standard alphabet.
#[verifier::external_body]
fn base64_encode_nopad(s: &str) -> (r: String)
    requires
        s@.len() <= 0x0fff_ffff_ffff_ffff,
    ensures
        r@ == base64_nopad_of(s@),
        s@.len() == 0 ==> r@.len() == 0,
        forall|i: int| 0 <= i < r@.len() ==> is_base64_char(#[trigger] r@[i]),
{
    base64::Engine::encode(&base64::engine::general_purpose::STANDARD_NO_PAD, s)
}

/// Relies on url's `Url::parse`: whether the text is accepted is a
/// function of the text alone.
#[verifier::external_body]
fn url_accepts(s: &str) -> (r: bool)
    ensures
        r == url_parse_ok(s@),
{
    url::Url::parse(s).is_ok()
}

/// The fixed base of every request URL.
pub open spec fn base_url() -> Seq<char> {
    "https://opensky-network.org/api/"@
}

/// A resolved URL with its query string attached; a request without
/// parameters carries no `?`.
pub open spec fn full_url_of(resolved: Seq<char>, ps: Seq<(Seq<char>, Seq<char>)>) -> Seq<char> {
    if ps.len() == 0 {
        resolved
    } else {
        resolved + seq!['?'] + query_string_of(ps)
    }
}

/// The header value stored for a credential: `Basic` and the
/// credential's encoding.
pub open spec fn auth_header_of(credential: Seq<char>) -> Seq<char> {
    "Basic "@ + base64_nopad_of(credential)
}

/// The header list a credential state produces: exactly one
/// `Authorization` header when a credential is set, none otherwise.
pub open spec fn auth_headers(auth: Option<Seq<char>>) -> Seq<(Seq<char>, Seq<char>)> {
    match auth {
        Some(a) => seq![("Authorization"@, a)],
        None => seq![],
    }
}

/// Whether every character of the text may stand in a header value:
/// horizontal tab or visible ASCII including space.
pub open spec fn valid_header_value(s: Seq<char>) -> bool {
    forall|i: int| 0 <= i < s.len() ==> (#[trigger] s[i] == '\t' || (' ' <= s[i] && s[i] <= '~'))
}

/// Checks `valid_header_value` on a string.
fn valid_header_chars(s: &str) -> (r: bool)
    ensures
        r == valid_header_value(s@),
{
    let n = s.unicode_len();
    let mut i: usize = 0;
    while i < n
        invariant
            n == s@.len(),
            i <= n,
            forall|j: int| 0 <= j < i ==> (#[trigger] s@[j] == '\t' || (' ' <= s@[j] && s@[j]
                <= '~')),
        decreases n - i,
    {
        let c = s.get_char(i);
        if !(c == '\t' || (' ' <= c && c <= '~')) {
            return false;
        }
        i += 1;
    }
    true
}

/// A fully prepared request: everything a transport needs to perform
/// one HTTP exchange.
#[derive(Debug, Clone)]
pub struct Request {
    pub method: Method,
    pub url: String,
    pub headers: Vec<(String, String)>,
    pub body: Vec<u8>,
}

impl Request {
    /// The headers as character sequences.
    pub open spec fn headers_spec(&self) -> Seq<(Seq<char>, Seq<char>)> {
        self.headers@.map_values(|p: (String, String)| (p.0@, p.1@))
    }
}

/// The uniform response envelope: status, protocol version, headers and
/// body bytes, exactly as the transport reported them.
#[derive(Debug, Clone)]
pub struct HttpResponse {
    pub status: u16,
    pub version: String,
    pub headers: Vec<(String, Vec<u8>)>,
    pub body: Vec<u8>,
}

/// Wraps one transport reply into the envelope. Every field passes
/// through unchanged: a 404 from the transport stays a 404 in the
/// envelope, never an error.
pub fn assemble_response(
    status: u16,
    version: String,
    headers: Vec<(String, Vec<u8>)>,
    body: Vec<u8>,
) -> (r: HttpResponse)
    ensures
        r.status == status,
        r.version == version,
        r.headers == headers,
        r.body == body,
{
    HttpResponse { status, version, headers, body }
}

/// The dispatcher. It holds the base URL and the optional Basic-auth
/// header value; the transport handles live with the caller.
#[derive(Debug)]
pub struct OpenSky {
    rest_url: String,
    auth: Option<String>,
}

impl OpenSky {
    /// The base URL every path resolves against.
    pub closed spec fn base_spec(&self) -> Seq<char> {
        self.rest_url@
    }

    /// The stored Authorization header value, if a credential was set.
    pub closed spec fn auth_spec(&self) -> Option<Seq<char>> {
        match self.auth {
            Some(a) => Some(a@),
            None => None,
        }
    }

    /// A dispatcher for the fixed API base URL, with no credential.
    /// The base constant is still validated defensively.
    pub fn new() -> (r: Result<OpenSky, OpenSkyError>)
        ensures
            url_parse_ok(base_url()) ==> (r matches Ok(c) && c.base_spec() == base_url()
                && c.auth_spec() is None),
            !url_parse_ok(base_url()) ==> (r matches Err(OpenSkyError::UrlResolution(u)) && u@
                == base_url()),
    {
        let base = String::from_str("https://opensky-network.org/api/");
        if !url_accepts(base.as_str()) {
            return Err(OpenSkyError::UrlResolution(base));
        }
        Ok(OpenSky { rest_url: base, auth: None })
    }

    /// Stores a credential: every later request carries one
    /// `Authorization` header whose value is `Basic` and the
    /// credential's encoding.
    pub fn set_auth(&mut self, credential: &str)
        requires
            credential@.len() <= 0x0fff_ffff_ffff_ffff,
        ensures
            final(self).base_spec() == old(self).base_spec(),
            final(self).auth_spec() == Some(auth_header_of(credential@)),
    {
        let encoded = base64_encode_nopad(credential);
        let mut value = String::from_str("Basic ");
        value.append(encoded.as_str());
        self.auth = Some(value);
    }

    /// Drops the stored credential: later requests carry no
    /// `Authorization` header.
    pub fn clear_auth(&mut self)
        ensures
            final(self).base_spec() == old(self).base_spec(),
            final(self).auth_spec() is None,
    {
        self.auth = None;
    }

    /// Joins a relative endpoint path against the base URL, validating
    /// the result defensively.
    pub fn rest_endpoint(&self, endpoint: &str) -> (r: Result<String, OpenSkyError>)
        ensures
            url_parse_ok(self.base_spec() + endpoint@) ==> (r matches Ok(u) && u@
                == self.base_spec() + endpoint@),
            !url_parse_ok(self.base_spec() + endpoint@) ==> (r matches Err(
                OpenSkyError::UrlResolution(u),
            ) && u@ == self.base_spec() + endpoint@),
    {
        let mut full = self.rest_url.clone();
        full.append(endpoint);
        if url_accepts(full.as_str()) {
            Ok(full)
        } else {
            Err(OpenSkyError::UrlResolution(full))
        }
    }

    /// Prepares one request from an endpoint descriptor: resolves the
    /// path, serializes the parameters, attaches the empty body and,
    /// when a credential is set, exactly one `Authorization` header.
    ///
    /// Both calling conventions execute this one prepared value, so the
    /// blocking and the suspending path send identical requests for
    /// identical dispatcher and descriptor states.
    pub fn prepare<E: Endpoint>(&self, endpoint: &E) -> (r: Result<Request, OpenSkyError>)
        ensures
            !url_parse_ok(self.base_spec() + endpoint.path_spec()) ==> (r matches Err(
                OpenSkyError::UrlResolution(u),
            ) && u@ == self.base_spec() + endpoint.path_spec()),
            self.auth_spec() matches Some(a) ==> (url_parse_ok(
                self.base_spec() + endpoint.path_spec(),
            ) && !valid_header_value(a) ==> (r matches Err(OpenSkyError::Header(h)) && h@ == a)),
            url_parse_ok(self.base_spec() + endpoint.path_spec()) && (match self.auth_spec() {
                Some(a) => valid_header_value(a),
                None => true,
            }) ==> (r matches Ok(req) && req.method == endpoint.method_spec() && req.url@
                == full_url_of(self.base_spec() + endpoint.path_spec(), endpoint.params_spec())
                && req.headers_spec() == auth_headers(self.auth_spec()) && req.body@
                == Seq::<u8>::empty()),
    {
        let path = endpoint.endpoint();
        let mut url = match self.rest_endpoint(path.as_str()) {
            Ok(u) => u,
            Err(e) => {
                return Err(e);
            },
        };
        let params = endpoint.parameters();
        if !params.is_empty() {
            url.append("?");
            let qs = params.to_query_string();
            url.append(qs.as_str());
            proof {
                reveal_strlit("?");
                assert("?"@ =~= seq!['?']);
            }
        }
        let mut headers: Vec<(String, String)> = Vec::new();
        match &self.auth {
            Some(a) => {
                if !valid_header_chars(a.as_str()) {
                    return Err(OpenSkyError::Header(a.clone()));
                }
                headers.push((String::from_str("Authorization"), a.clone()));
            },
            None => {},
        }
        let r = Request { method: endpoint.method(), url, headers, body: Vec::new() };
        proof {
            assert(r.headers_spec() =~= auth_headers(self.auth_spec()));
            assert(r.body@ =~= Seq::<u8>::empty());
        }
        Ok(r)
    }
}

/// With a credential set, exactly one `Authorization` header is
/// attached; with none set, none is.
pub proof fn lemma_auth_header_count(auth: Option<Seq<char>>)
    ensures
        auth matches Some(a) ==> auth_headers(auth).len() == 1 && auth_headers(auth)[0] == (
            "Authorization"@,
            a,
        ),
        auth is None ==> auth_headers(auth).len() == 0,
{
}

} // verus!
