//! Preference sync against the remote service, and profile file naming.
//!
//! The preference blob is opaque: it is carried as the raw response text,
//! never interpreted, and sent back verbatim on write. The HTTP calls happen
//! outside the library; these functions classify the observed responses.

use crate::auth::is_success;
use crate::errors::ApiError;
use vstd::prelude::*;

verus! {

/// Whether the text parses as a JSON document.
pub uninterp spec fn is_json(s: Seq<char>) -> bool;

/// Relies on serde_json::from_str to decide whether the text is a valid JSON
/// document; acceptance is a pure function of the text.
#[verifier::external_body]
fn json_parses(s: &str) -> (r: bool)
    ensures
        r == is_json(s@),
{
    serde_json::from_str::<serde_json::Value>(s).is_ok()
}

/// The remote endpoint the preference blob is fetched from.
pub fn get_preferences_url() -> (r: &'static str)
    ensures
        r@
            == "https://player-preferences-usw2.pp.sgp.pvp.net/playerPref/v3/getPreference/Ares.PlayerSettings"@,
{
    "https://player-preferences-usw2.pp.sgp.pvp.net/playerPref/v3/getPreference/Ares.PlayerSettings"
}

/// The remote endpoint the preference blob is stored to.
pub fn save_preferences_url() -> (r: &'static str)
    ensures
        r@ == "https://player-preferences-usw2.pp.sgp.pvp.net/playerPref/v3/savePreference"@,
{
    "https://player-preferences-usw2.pp.sgp.pvp.net/playerPref/v3/savePreference"
}

/// The public, unauthenticated version-information endpoint.
pub fn version_url() -> (r: &'static str)
    ensures
        r@ == "https://valorant-api.com/v1/version"@,
{
    "https://valorant-api.com/v1/version"
}

/// Classifies the response to a preference fetch. A non-success status
/// surfaces as `ApiErrorResponse` with the status and the raw body; a success
/// whose body is not a JSON document is an encoding failure; otherwise the
/// body is the blob, returned verbatim.
pub fn fetch_result(status: u16, body: String) -> (r: Result<String, ApiError>)
    ensures
        match r {
            Ok(blob) => is_success(status) && is_json(body@) && blob@ == body@,
            Err(e) => {
                ||| !is_success(status) && (e matches ApiError::ApiErrorResponse { status: st, text }
                    && st == status && text@ == body@)
                ||| is_success(status) && !is_json(body@) && e is EncodingFailure
            },
        },
{
    if !(200 <= status && status <= 299) {
        return Err(ApiError::ApiErrorResponse { status, text: body });
    }
    if !json_parses(body.as_str()) {
        return Err(ApiError::EncodingFailure(String::from_str("invalid preference blob")));
    }
    Ok(body)
}

/// Classifies the response to a preference store. A success returns the
/// numeric status itself, so callers can distinguish the remote service's
/// success codes; a non-success surfaces as `ApiErrorResponse`.
pub fn store_result(status: u16, body: String) -> (r: Result<u16, ApiError>)
    ensures
        match r {
            Ok(st) => is_success(status) && st == status,
            Err(e) => !is_success(status) && (e matches ApiError::ApiErrorResponse {
                status: st,
                text,
            } && st == status && text@ == body@),
        },
{
    if 200 <= status && status <= 299 {
        Ok(status)
    } else {
        Err(ApiError::ApiErrorResponse { status, text: body })
    }
}

/// A file name that carries the `.json` extension with a non-empty stem.
pub open spec fn has_json_ext(s: Seq<char>) -> bool {
    s.len() >= 6 && s[s.len() - 5] == '.' && s[s.len() - 4] == 'j' && s[s.len() - 3] == 's' && s[
        s.len() - 2] == 'o' && s[s.len() - 1] == 'n'
}

/// The profile name a saved file stands for: its stem, when the file name
/// carries the `.json` extension; nothing otherwise.
pub fn profile_stem(file_name: &str) -> (r: Option<String>)
    ensures
        match r {
            Some(stem) => has_json_ext(file_name@) && stem@ == file_name@.take(
                file_name@.len() - 5,
            ),
            None => !has_json_ext(file_name@),
        },
{
    let n = file_name.unicode_len();
    if n < 6 {
        return None;
    }
    if !(file_name.get_char(n - 5) == '.' && file_name.get_char(n - 4) == 'j' && file_name.get_char(
        n - 3,
    ) == 's' && file_name.get_char(n - 2) == 'o' && file_name.get_char(n - 1) == 'n') {
        return None;
    }
    Some(String::from_str(file_name.substring_char(0, n - 5)))
}

} // verus!
