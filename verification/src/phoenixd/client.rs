//! What the PhoenixD client sends: base URL, basic authentication, endpoint
//! URLs and form parameters, and how it reads a response.
use base64::Engine;
use vstd::prelude::*;

use crate::phoenixd::error::PhoenixdError;
use crate::text::{concat2, decimal, trim_end_char, trim_end_matches_char, u64_to_decimal};

verus! {

/// The standard base64 alphabet.
pub open spec fn base64_char(v: nat) -> char {
    if v < 26 {
        ((v + 65) as u32) as char
    } else if v < 52 {
        ((v + 71) as u32) as char
    } else if v < 62 {
        ((v - 4) as u32) as char
    } else if v == 62 {
        '+'
    } else {
        '/'
    }
}

/// Standard base64 with `=` padding.
pub open spec fn base64_standard(b: Seq<u8>) -> Seq<char>
    decreases b.len(),
{
    if b.len() == 0 {
        seq![]
    } else if b.len() == 1 {
        seq![base64_char(b[0] as nat / 4), base64_char((b[0] as nat % 4) * 16), '=', '=']
    } else if b.len() == 2 {
        seq![
            base64_char(b[0] as nat / 4),
            base64_char((b[0] as nat % 4) * 16 + b[1] as nat / 16),
            base64_char((b[1] as nat % 16) * 4),
            '=',
        ]
    } else {
        seq![
            base64_char(b[0] as nat / 4),
            base64_char((b[0] as nat % 4) * 16 + b[1] as nat / 16),
            base64_char((b[1] as nat % 16) * 4 + b[2] as nat / 64),
            base64_char(b[2] as nat % 64),
        ] + base64_standard(b.skip(3))
    }
}

/// Calls `base64::engine::general_purpose::STANDARD.encode`, which encodes
/// with the standard alphabet and `=` padding.
#[verifier::external_body]
fn base64_encode(data: &[u8]) -> (r: String)
    ensures
        r@ == base64_standard(data@),
{
    base64::engine::general_purpose::STANDARD.encode(data)
}

/// The `Authorization` value for PhoenixD's HTTP basic authentication: an
/// empty user name and the password.
pub open spec fn basic_auth_value(password: Seq<char>) -> Seq<char> {
    "Basic "@ + base64_standard(vstd::utf8::encode_utf8(":"@ + password))
}

/// The `Authorization` header value for a password.
pub fn basic_auth_header(password: &str) -> (r: String)
    ensures
        r@ == basic_auth_value(password@),
{
    let credentials = concat2(":", password);
    let encoded = base64_encode(credentials.as_str().as_bytes());
    concat2("Basic ", encoded.as_str())
}

/// Where and how the client talks to PhoenixD.
#[derive(Debug)]
pub struct PhoenixdSettings {
    pub base_url: String,
    pub auth_header: String,
}

impl PhoenixdSettings {
    /// Settings for a node URL (trailing slashes removed) and a password.
    pub fn new(url: &str, password: &str) -> (r: PhoenixdSettings)
        ensures
            r.base_url@ == trim_end_char(url@, '/'),
            r.auth_header@ == basic_auth_value(password@),
    {
        PhoenixdSettings {
            base_url: trim_end_matches_char(url, '/'),
            auth_header: basic_auth_header(password),
        }
    }

    /// The URL of an API path.
    pub fn url(&self, path: &str) -> (r: String)
        ensures
            r@ == self.base_url@ + "/"@ + path@,
    {
        let mut r = concat2(self.base_url.as_str(), "/");
        r.append(path);
        r
    }
}

/// The default node URL when none is configured.
pub open spec fn default_phoenixd_url() -> Seq<char> {
    "http://localhost:9740"@
}

/// The error when no password is configured.
pub open spec fn missing_password_message() -> Seq<char> {
    "PHOENIXD_PASSWORD env var not set"@
}

/// Settings from the configured URL and password: the URL defaults to the
/// local node, and a password is required.
pub fn settings_from_config(url: Option<String>, password: Option<String>) -> (r: Result<
    PhoenixdSettings,
    PhoenixdError,
>)
    ensures
        r is Ok <==> password is Some,
        r matches Ok(s) ==> s.auth_header@ == basic_auth_value(password->0@) && s.base_url@
            == trim_end_char(
            match url {
                Some(u) => u@,
                None => default_phoenixd_url(),
            },
            '/',
        ),
        r matches Err(e) ==> e matches PhoenixdError::Api { message } && message@
            == missing_password_message(),
{
    let url = match url {
        Some(u) => u,
        None => String::from_str("http://localhost:9740"),
    };
    let password = match password {
        Some(p) => p,
        None => {
            return Err(
                PhoenixdError::Api { message: String::from_str("PHOENIXD_PASSWORD env var not set") },
            );
        },
    };
    Ok(PhoenixdSettings::new(url.as_str(), password.as_str()))
}

/// The form of `/createinvoice`: amount, description, then the optional
/// external id.
pub open spec fn invoice_form_spec(amount_sat: u64, description: Seq<char>, external_id: Option<
    Seq<char>,
>) -> Seq<(Seq<char>, Seq<char>)> {
    seq![("amountSat"@, decimal(amount_sat as nat)), ("description"@, description)] + match external_id {
        Some(id) => seq![("externalId"@, id)],
        None => seq![],
    }
}

/// The views of form parameters.
pub open spec fn form_view(f: Seq<(String, String)>) -> Seq<(Seq<char>, Seq<char>)> {
    Seq::new(f.len(), |i: int| (f[i].0@, f[i].1@))
}

/// Form parameters for creating an invoice.
pub fn invoice_form(amount_sat: u64, description: &str, external_id: Option<&str>) -> (r: Vec<
    (String, String),
>)
    ensures
        form_view(r@) == invoice_form_spec(
            amount_sat,
            description@,
            match external_id {
                Some(id) => Some(id@),
                None => None,
            },
        ),
{
    let mut r: Vec<(String, String)> = Vec::new();
    r.push((String::from_str("amountSat"), u64_to_decimal(amount_sat)));
    r.push((String::from_str("description"), String::from_str(description)));
    if let Some(id) = external_id {
        r.push((String::from_str("externalId"), String::from_str(id)));
    }
    assert(form_view(r@) =~= invoice_form_spec(
        amount_sat,
        description@,
        match external_id {
            Some(id) => Some(id@),
            None => None,
        },
    ));
    r
}

/// The body of a response that reported success; otherwise an API error
/// carrying the body.
pub fn response_body(success: bool, text: String) -> (r: Result<String, PhoenixdError>)
    ensures
        success ==> (r matches Ok(t) && t@ == text@),
        !success ==> (r matches Err(e) && e matches PhoenixdError::Api { message } && message@
            == text@),
{
    if !success {
        return Err(PhoenixdError::Api { message: text });
    }
    Ok(text)
}

/// The error for a body that does not decode: the decoder's message, a
/// colon, and the body.
pub fn deserialize_error(reason: &str, text: &str) -> (r: PhoenixdError)
    ensures
        r matches PhoenixdError::Deserialize(m) && m@ == reason@ + ": "@ + text@,
{
    let mut m = concat2(reason, ": ");
    m.append(text);
    PhoenixdError::Deserialize(m)
}

/// A configured node URL never ends in a slash, so `url` joins it to a path
/// with exactly one.
pub proof fn lemma_base_url_has_no_trailing_slash(url: Seq<char>)
    ensures
        trim_end_char(url, '/').len() == 0 || trim_end_char(url, '/').last() != '/',
    decreases url.len(),
{
    if url.len() > 0 && url.last() == '/' {
        lemma_base_url_has_no_trailing_slash(url.drop_last());
    }
}

} // verus!
