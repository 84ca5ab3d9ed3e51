//! The local credential handshake: Basic-auth derivation from the lock file
//! password, the local entitlement endpoint's address, parsing of the two
//! handshake responses, and assembly of the canonical authenticated header
//! set.
//!
//! The network calls themselves happen outside the library; these functions
//! take the observed request inputs and response texts.

use crate::errors::ApiError;
use crate::lockfile::{dec_value, is_port_field, parse_lockfile, split_colon};
use crate::text::dec_seq;
use vstd::prelude::*;
use vstd::string::StringSliceAdditionalSpecFns;
use vstd::utf8::encode_utf8;

verus! {

/// What base64's standard-alphabet, padded encoder returns for the given
/// bytes. The result depends on the bytes alone.
pub uninterp spec fn base64_std_of(bytes: Seq<u8>) -> Seq<char>;

/// Relies on base64's `Engine::encode` with the `STANDARD` engine (standard
/// alphabet, padded): the result is a pure function of the input bytes. It
/// cannot panic for a `&str` input, whose byte length always leaves the
/// encoded length within `usize`.
#[verifier::external_body]
fn base64_encode(s: &str) -> (r: String)
    ensures
        r@ == base64_std_of(s.spec_bytes()),
{
    base64::Engine::encode(&base64::engine::general_purpose::STANDARD, s.as_bytes())
}

/// The Basic-auth header value derived from a lock file password: base64 of
/// the UTF-8 bytes of `riot:<password>`, prefixed with `Basic `.
pub open spec fn basic_auth_spec(password: Seq<char>) -> Seq<char> {
    "Basic "@ + base64_std_of(encode_utf8("riot:"@ + password))
}

/// Builds the Basic-auth header value for the fixed literal user name and the
/// given lock file password.
pub fn basic_auth_value(password: &str) -> (r: String)
    ensures
        r@ == basic_auth_spec(password@),
{
    let payload = String::from_str("riot:").concat(password);
    let encoded = base64_encode(payload.as_str());
    String::from_str("Basic ").concat(encoded.as_str())
}

/// The local entitlement endpoint: HTTPS on the loopback address, at the port
/// the lock file names.
pub open spec fn entitlement_url_spec(port: nat) -> Seq<char> {
    "https://127.0.0.1:"@ + dec_seq(port) + "/entitlements/v1/token"@
}

/// Renders the local entitlement endpoint's address for the given port.
pub fn entitlement_url(port: u16) -> (r: String)
    ensures
        r@ == entitlement_url_spec(port as nat),
{
    let mut s = String::from_str("https://127.0.0.1:");
    let digits = crate::text::u16_to_string(port);
    s.append(digits.as_str());
    s.append("/entitlements/v1/token");
    s
}

/// A character that may stand in an HTTP header value: horizontal tab, or any
/// character other than the ASCII controls.
pub open spec fn valid_header_char(c: char) -> bool {
    c == '\t' || (32 <= c as int && c as int != 127)
}

/// A credential value is fit for use in a header when every character is.
pub open spec fn valid_header_value(s: Seq<char>) -> bool {
    forall|i: int| 0 <= i < s.len() ==> valid_header_char(s[i])
}

/// Checks a would-be header value character by character.
pub fn is_valid_header_value(s: &str) -> (r: bool)
    ensures
        r == valid_header_value(s@),
{
    let n = s.unicode_len();
    let mut i: usize = 0;
    while i < n
        invariant
            i <= n,
            n == s@.len(),
            forall|j: int| 0 <= j < i ==> valid_header_char(s@[j]),
        decreases n - i,
    {
        let c = s.get_char(i);
        let u = c as u32;
        if !(c == '\t' || (u >= 32 && u != 127)) {
            assert(!valid_header_char(s@[i as int]));
            return false;
        }
        i += 1;
    }
    true
}

/// The fixed opaque client-platform descriptor sent with every authenticated
/// request.
pub open spec fn client_platform_spec() -> Seq<char> {
    "ew0KCSJwbGF0Zm9ybVR5cGUiOiAiUEMiLA0KCSJwbGF0Zm9ybU9TIjogIldpbmRvd3MiLA0KCSJwbGF0Zm9ybU9TVmVyc2lvbiI6ICIxMC4wLjE5MDQyLjEuMjU2LjY0Yml0IiwNCgkicGxhdGZvcm1DaGlwc2V0IjogIlVua25vd24iDQp9"@
}

/// Hands out the fixed client-platform descriptor.
pub fn client_platform() -> (r: &'static str)
    ensures
        r@ == client_platform_spec(),
{
    "ew0KCSJwbGF0Zm9ybVR5cGUiOiAiUEMiLA0KCSJwbGF0Zm9ybU9TIjogIldpbmRvd3MiLA0KCSJwbGF0Zm9ybU9TVmVyc2lvbiI6ICIxMC4wLjE5MDQyLjEuMjU2LjY0Yml0IiwNCgkicGxhdGZvcm1DaGlwc2V0IjogIlVua25vd24iDQp9"
}

/// The canonical authenticated header set, in order: bearer authorization,
/// entitlement JWT, client version, client platform, content type. Built once
/// per authenticated operation and discarded after use.
pub struct AuthSession {
    pub headers: Vec<(String, String)>,
}

/// The header set an `AuthSession` must hold for the given access token,
/// entitlement JWT and client version.
pub open spec fn is_session_for(
    s: AuthSession,
    access: Seq<char>,
    entitlement: Seq<char>,
    version: Seq<char>,
) -> bool {
    &&& s.headers@.len() == 5
    &&& s.headers@[0].0@ == "Authorization"@ && s.headers@[0].1@ == "Bearer "@ + access
    &&& s.headers@[1].0@ == "X-Riot-Entitlements-JWT"@ && s.headers@[1].1@ == entitlement
    &&& s.headers@[2].0@ == "X-Riot-ClientVersion"@ && s.headers@[2].1@ == version
    &&& s.headers@[3].0@ == "X-Riot-ClientPlatform"@ && s.headers@[3].1@ == client_platform_spec()
    &&& s.headers@[4].0@ == "Content-Type"@ && s.headers@[4].1@ == "application/json"@
}

/// Every value that the header set for these credentials would carry is a
/// valid header value.
pub open spec fn session_values_valid(
    access: Seq<char>,
    entitlement: Seq<char>,
    version: Seq<char>,
) -> bool {
    &&& valid_header_value("Bearer "@ + access)
    &&& valid_header_value(entitlement)
    &&& valid_header_value(version)
    &&& valid_header_value(client_platform_spec())
    &&& valid_header_value("application/json"@)
}

/// Assembles the final header set from the two handshake results. Fails with
/// `HeaderConstructionFailure` exactly when one of the values is not fit for
/// use in a header.
pub fn build_headers(access_token: &str, entitlement: &str, version: &str) -> (r: Result<
    AuthSession,
    ApiError,
>)
    ensures
        match r {
            Ok(s) => session_values_valid(access_token@, entitlement@, version@) && is_session_for(
                s,
                access_token@,
                entitlement@,
                version@,
            ),
            Err(e) => e is HeaderConstructionFailure && !session_values_valid(
                access_token@,
                entitlement@,
                version@,
            ),
        },
{
    let bearer = String::from_str("Bearer ").concat(access_token);
    let platform = client_platform();
    let content_type = "application/json";
    if !is_valid_header_value(bearer.as_str()) {
        return Err(ApiError::HeaderConstructionFailure);
    }
    if !is_valid_header_value(entitlement) {
        return Err(ApiError::HeaderConstructionFailure);
    }
    if !is_valid_header_value(version) {
        return Err(ApiError::HeaderConstructionFailure);
    }
    if !is_valid_header_value(platform) {
        return Err(ApiError::HeaderConstructionFailure);
    }
    if !is_valid_header_value(content_type) {
        return Err(ApiError::HeaderConstructionFailure);
    }
    let mut headers: Vec<(String, String)> = Vec::new();
    headers.push((String::from_str("Authorization"), bearer));
    headers.push((String::from_str("X-Riot-Entitlements-JWT"), String::from_str(entitlement)));
    headers.push((String::from_str("X-Riot-ClientVersion"), String::from_str(version)));
    headers.push((String::from_str("X-Riot-ClientPlatform"), String::from_str(platform)));
    headers.push((String::from_str("Content-Type"), String::from_str(content_type)));
    Ok(AuthSession { headers })
}

/// What the local entitlement response's JSON carries: the `access_token` and
/// `token` fields, when the text parses as an object holding both as strings.
pub uninterp spec fn entitlement_fields_of(s: Seq<char>) -> Option<(Seq<char>, Seq<char>)>;

/// Relies on serde_json::from_str and serde_json::Value's `get`/`as_str`: the
/// extracted fields are a pure function of the response text.
#[verifier::external_body]
fn parse_entitlement_json(s: &str) -> (r: Option<(String, String)>)
    ensures
        match r {
            Some(p) => entitlement_fields_of(s@) == Some((p.0@, p.1@)),
            None => entitlement_fields_of(s@) is None,
        },
{
    let v: serde_json::Value = match serde_json::from_str(s) {
        Ok(v) => v,
        Err(_) => return None,
    };
    let access = v.get("access_token")?.as_str()?.to_string();
    let token = v.get("token")?.as_str()?.to_string();
    Some((access, token))
}

/// Parses the local entitlement response body into its access token and
/// entitlement JWT; a body without both string fields is an encoding failure.
pub fn parse_entitlements(body: &str) -> (r: Result<(String, String), ApiError>)
    ensures
        match r {
            Ok(p) => entitlement_fields_of(body@) == Some((p.0@, p.1@)),
            Err(e) => entitlement_fields_of(body@) is None && e is EncodingFailure,
        },
{
    match parse_entitlement_json(body) {
        Some(p) => Ok(p),
        None => Err(ApiError::EncodingFailure(String::from_str("invalid entitlements response"))),
    }
}

/// What the public version response's JSON carries: the client version string
/// under `data.riot_client_version`, when present.
pub uninterp spec fn version_of(s: Seq<char>) -> Option<Seq<char>>;

/// Relies on serde_json::from_str and serde_json::Value's `get`/`as_str`: the
/// extracted field is a pure function of the response text.
#[verifier::external_body]
fn parse_version_json(s: &str) -> (r: Option<String>)
    ensures
        match r {
            Some(v) => version_of(s@) == Some(v@),
            None => version_of(s@) is None,
        },
{
    let v: serde_json::Value = match serde_json::from_str(s) {
        Ok(v) => v,
        Err(_) => return None,
    };
    Some(v.get("data")?.get("riot_client_version")?.as_str()?.to_string())
}

/// Parses the public version response body into the current client version
/// string; a body without the field is an encoding failure.
pub fn parse_version(body: &str) -> (r: Result<String, ApiError>)
    ensures
        match r {
            Ok(v) => version_of(body@) == Some(v@),
            Err(e) => version_of(body@) is None && e is EncodingFailure,
        },
{
    match parse_version_json(body) {
        Some(v) => Ok(v),
        None => Err(ApiError::EncodingFailure(String::from_str("invalid version response"))),
    }
}

/// A successful HTTP status, as the transport reports it.
pub open spec fn is_success(status: u16) -> bool {
    200 <= status && status <= 299
}

/// The prepared first step of the handshake: where to send the local
/// entitlement request and with which Basic-auth header.
pub struct EntitlementRequest {
    pub port: u16,
    pub url: String,
    pub basic_auth: String,
}

/// Derives the local entitlement request from the lock file's contents:
/// parses the credentials, then builds the endpoint address and the
/// Basic-auth header value.
pub fn entitlement_request(lock_content: &str) -> (r: Result<EntitlementRequest, ApiError>)
    ensures
        ({
            let fields = split_colon(lock_content@);
            match r {
                Ok(q) => fields.len() >= 4 && is_port_field(fields[2]) && q.port as nat
                    == dec_value(fields[2]) && q.url@ == entitlement_url_spec(dec_value(fields[2]))
                    && q.basic_auth@ == basic_auth_spec(fields[3]),
                Err(e) => e is MalformedLockfile && (fields.len() < 4 || !is_port_field(fields[2])),
            }
        }),
{
    let creds = parse_lockfile(lock_content)?;
    let url = entitlement_url(creds.port);
    let basic_auth = basic_auth_value(creds.password.as_str());
    Ok(EntitlementRequest { port: creds.port, url, basic_auth })
}

/// Completes the handshake from the two observed responses: rejects an
/// unsuccessful entitlement response with its status and body, parses both
/// bodies, and assembles the canonical header set.
pub fn session_from_responses(ent_status: u16, ent_body: &str, ver_body: &str) -> (r: Result<
    AuthSession,
    ApiError,
>)
    ensures
        match r {
            Ok(s) => is_success(ent_status) && (entitlement_fields_of(ent_body@) matches Some(toks)
                && (version_of(ver_body@) matches Some(ver) && (session_values_valid(
                toks.0,
                toks.1,
                ver,
            ) && is_session_for(s, toks.0, toks.1, ver)))),
            Err(e) => {
                ||| !is_success(ent_status) && (e matches ApiError::ApiErrorResponse {
                    status,
                    text,
                } && status == ent_status && text@ == ent_body@)
                ||| is_success(ent_status) && entitlement_fields_of(ent_body@) is None
                    && e is EncodingFailure
                ||| is_success(ent_status) && entitlement_fields_of(ent_body@) is Some
                    && version_of(ver_body@) is None && e is EncodingFailure
                ||| is_success(ent_status) && e is HeaderConstructionFailure && (
                entitlement_fields_of(ent_body@) matches Some(toks) && (version_of(ver_body@)
                    matches Some(ver) && !session_values_valid(toks.0, toks.1, ver)))
            },
        },
{
    if !(200 <= ent_status && ent_status <= 299) {
        return Err(
            ApiError::ApiErrorResponse { status: ent_status, text: String::from_str(ent_body) },
        );
    }
    let toks = parse_entitlements(ent_body)?;
    let ver = parse_version(ver_body)?;
    build_headers(toks.0.as_str(), toks.1.as_str(), ver.as_str())
}

} // verus!
