//! The sync sidecar file: credentials for the remote replica, stored as a
//! small JSON object `{"url": ..., "token": ...}` next to the database file.

use vstd::prelude::*;
use crate::text::concat;
use crate::validator::ValidationError;

verus! {

/// Credentials of the remote replica.
#[derive(Clone)]
pub struct SyncConfig {
    pub url: String,
    pub token: String,
}

/// Cloud sync is asked for only when both the url and the token are non-empty.
pub open spec fn sync_requested(url: Seq<char>, token: Seq<char>) -> bool {
    url.len() > 0 && token.len() > 0
}

/// The lower-case hexadecimal digit of `d` (0 to 15).
pub open spec fn hex_digit(d: int) -> char {
    seq!['0', '1', '2', '3', '4', '5', '6', '7', '8', '9', 'a', 'b', 'c', 'd', 'e', 'f'][d]
}

/// How serde_json writes one character inside a JSON string: the quote and
/// the backslash escaped, the control characters below U+0020 as a short
/// escape or as `\u00XX`, every other character as it is.
pub open spec fn json_escape_char(c: char) -> Seq<char> {
    if c == '"' {
        seq!['\\', '"']
    } else if c == '\\' {
        seq!['\\', '\\']
    } else if c == '\x08' {
        seq!['\\', 'b']
    } else if c == '\t' {
        seq!['\\', 't']
    } else if c == '\n' {
        seq!['\\', 'n']
    } else if c == '\x0c' {
        seq!['\\', 'f']
    } else if c == '\r' {
        seq!['\\', 'r']
    } else if (c as int) < 0x20 {
        seq!['\\', 'u', '0', '0', hex_digit(c as int / 16), hex_digit(c as int % 16)]
    } else {
        seq![c]
    }
}

/// The characters of `s`, each escaped as serde_json writes it.
pub open spec fn json_escaped(s: Seq<char>) -> Seq<char>
    decreases s.len(),
{
    if s.len() == 0 {
        seq![]
    } else {
        json_escaped(s.drop_last()) + json_escape_char(s.last())
    }
}

/// What serde_json writes for a string value: the escaped characters
/// between double quotes.
pub open spec fn json_string_text(s: Seq<char>) -> Seq<char> {
    seq!['"'] + json_escaped(s) + seq!['"']
}

/// The string stored under member `key` of the JSON object that `text` holds:
/// `None` when `text` is not a JSON object or has no string member `key`.
pub uninterp spec fn json_member_string(text: Seq<char>, key: Seq<char>) -> Option<Seq<char>>;

/// The exact text of the sidecar file for the given credentials.
pub open spec fn config_document(url: Seq<char>, token: Seq<char>) -> Seq<char> {
    "{\"url\":"@ + json_string_text(url) + ",\"token\":"@ + json_string_text(token) + "}"@
}

/// What the sidecar file text decodes to: both members must be JSON strings.
pub open spec fn decoded_config(text: Seq<char>) -> Option<(Seq<char>, Seq<char>)> {
    match (json_member_string(text, "url"@), json_member_string(text, "token"@)) {
        (Some(u), Some(t)) => Some((u, t)),
        _ => None,
    }
}

/// Relies on serde_json::to_string on a `str`: the JSON string literal for `s`.
/// Serialising a string never fails (the output goes to an in-memory buffer).
#[verifier::external_body]
pub(crate) fn json_quote(s: &str) -> (r: String)
    ensures
        r@ == json_string_text(s@),
{
    serde_json::to_string(s).unwrap_or_default()
}

/// Relies on serde_json::from_str into a `serde_json::Value`, then
/// `Value::get` and `Value::as_str`: the string member `key` of the object.
/// serde_json reads back the strings that it writes, so the text of a
/// sidecar file yields the url and the token it was written with.
#[verifier::external_body]
fn json_member(text: &str, key: &str) -> (r: Option<String>)
    ensures
        r matches Some(v) ==> json_member_string(text@, key@) == Some(v@),
        r is None ==> json_member_string(text@, key@) is None,
        forall|c: (Seq<char>, Seq<char>)|
            (#[trigger] config_document(c.0, c.1) == text@ && key@ == "url"@) ==> (r is Some
                && r->0@ == c.0),
        forall|c: (Seq<char>, Seq<char>)|
            (#[trigger] config_document(c.0, c.1) == text@ && key@ == "token"@) ==> (r is Some
                && r->0@ == c.1),
{
    serde_json::from_str::<serde_json::Value>(text)
        .ok()
        .and_then(|v| v.get(key).and_then(|m| m.as_str()).map(|m| m.to_string()))
}

impl SyncConfig {
    /// Whether these credentials ask for cloud sync (both fields non-empty).
    pub fn is_complete(&self) -> (r: bool)
        ensures
            r == sync_requested(self.url@, self.token@),
    {
        !self.url.as_str().is_empty() && !self.token.as_str().is_empty()
    }

    /// The sidecar file text for these credentials.
    pub fn to_json(&self) -> (r: String)
        ensures
            r@ == config_document(self.url@, self.token@),
    {
        let u = json_quote(self.url.as_str());
        let t = json_quote(self.token.as_str());
        let r = concat("{\"url\":", u.as_str());
        let r = concat(r.as_str(), ",\"token\":");
        let r = concat(r.as_str(), t.as_str());
        concat(r.as_str(), "}")
    }
}

/// Decodes the sidecar file text; malformed text gives `None`.
pub fn parse_sync_config(text: &str) -> (r: Option<SyncConfig>)
    ensures
        r matches Some(c) ==> decoded_config(text@) == Some((c.url@, c.token@)),
        r is None ==> decoded_config(text@) is None,
        forall|c: (Seq<char>, Seq<char>)|
            #[trigger] config_document(c.0, c.1) == text@ ==> (r is Some && r->0.url@ == c.0
                && r->0.token@ == c.1),
{
    let url = json_member(text, "url");
    let token = json_member(text, "token");
    match (url, token) {
        (Some(url), Some(token)) => Some(SyncConfig { url, token }),
        _ => None,
    }
}

/// The stored credentials, given the sidecar file's text (`None` when there
/// is no such file). A file that does not decode counts as no file.
pub fn get_sync_config(file_text: Option<&str>) -> (r: Option<SyncConfig>)
    ensures
        file_text is None ==> r is None,
        file_text matches Some(t) ==> (r matches Some(c) ==> decoded_config(t@) == Some(
            (c.url@, c.token@),
        )),
        file_text matches Some(t) ==> (r is None <==> decoded_config(t@) is None),
{
    match file_text {
        Some(t) => parse_sync_config(t),
        None => None,
    }
}

/// Stores new credentials, given the verdict of the probe that was run on
/// them. Complete credentials (url and token non-empty) are stored only
/// when the probe passed; incomplete ones are stored as they are, which
/// turns cloud sync off at the next start. Returns the sidecar file text to
/// write, or the probe's error.
pub fn configure_sync(url: String, token: String, verdict: Result<(), ValidationError>) -> (r: Result<
    String,
    ValidationError,
>)
    ensures
        r is Err <==> (sync_requested(url@, token@) && verdict is Err),
        r matches Err(e) ==> verdict == Err::<(), ValidationError>(e),
        r matches Ok(t) ==> t@ == config_document(url@, token@),
{
    let config = SyncConfig { url, token };
    if config.is_complete() {
        if let Err(e) = verdict {
            return Err(e);
        }
    }
    Ok(config.to_json())
}

} // verus!
