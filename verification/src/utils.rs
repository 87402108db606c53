//! OAuth2 token refresh and code exchange: the requests to make and the
//! handling of Discord's answers.

use vstd::prelude::*;
use crate::error::{Error, ErrorView};
use crate::text::{str_concat, decimal, decimal_string};

verus! {

/// Response of Discord's `refresh_token` grant.
#[derive(Debug, Clone)]
pub struct TokenRefreshResponse {
    pub access_token: String,
    /// A new refresh token, when Discord rotates it.
    pub refresh_token: Option<String>,
    /// Lifetime of the access token in seconds.
    pub expires_in: u64,
}

/// Response of Discord's `authorization_code` grant.
#[derive(Debug, Clone)]
pub struct CodeExchangeResponse {
    pub access_token: String,
    pub refresh_token: String,
    /// Lifetime of the access token in seconds.
    pub expires_in: u64,
}

/// Discord's OAuth2 token endpoint.
pub open spec fn token_endpoint() -> Seq<char> {
    "https://discord.com/api/v10/oauth2/token"@
}

/// The address of Discord's OAuth2 token endpoint.
pub fn token_endpoint_url() -> (u: String)
    ensures
        u@ == token_endpoint(),
{
    String::from_str("https://discord.com/api/v10/oauth2/token")
}

/// The form fields as text.
pub open spec fn form_view(form: Seq<(String, String)>) -> Seq<(Seq<char>, Seq<char>)> {
    form.map_values(|p: (String, String)| (p.0@, p.1@))
}

/// The form of a refresh-token grant.
pub open spec fn refresh_form(client_id: Seq<char>, client_secret: Seq<char>, refresh_token: Seq<char>) -> Seq<(Seq<char>, Seq<char>)> {
    seq![
        ("client_id"@, client_id),
        ("client_secret"@, client_secret),
        ("grant_type"@, "refresh_token"@),
        ("refresh_token"@, refresh_token),
    ]
}

/// The form of an authorization-code grant.
pub open spec fn exchange_form(client_id: Seq<char>, client_secret: Seq<char>, code: Seq<char>, redirect_uri: Seq<char>) -> Seq<(Seq<char>, Seq<char>)> {
    seq![
        ("client_id"@, client_id),
        ("client_secret"@, client_secret),
        ("grant_type"@, "authorization_code"@),
        ("code"@, code),
        ("redirect_uri"@, redirect_uri),
    ]
}

fn field(name: &str, value: &str) -> (p: (String, String))
    ensures
        p.0@ == name@,
        p.1@ == value@,
{
    (String::from_str(name), String::from_str(value))
}

/// The form fields that refresh a user's token.
pub fn refresh_token_form(client_id: &str, client_secret: &str, refresh_token: &str) -> (f: Vec<(String, String)>)
    ensures
        form_view(f@) == refresh_form(client_id@, client_secret@, refresh_token@),
{
    let mut f: Vec<(String, String)> = Vec::new();
    f.push(field("client_id", client_id));
    f.push(field("client_secret", client_secret));
    f.push(field("grant_type", "refresh_token"));
    f.push(field("refresh_token", refresh_token));
    assert(form_view(f@) =~= refresh_form(client_id@, client_secret@, refresh_token@));
    f
}

/// The form fields that exchange an authorization code for tokens.
pub fn exchange_code_form(client_id: &str, client_secret: &str, code: &str, redirect_uri: &str) -> (f: Vec<(String, String)>)
    ensures
        form_view(f@) == exchange_form(client_id@, client_secret@, code@, redirect_uri@),
{
    let mut f: Vec<(String, String)> = Vec::new();
    f.push(field("client_id", client_id));
    f.push(field("client_secret", client_secret));
    f.push(field("grant_type", "authorization_code"));
    f.push(field("code", code));
    f.push(field("redirect_uri", redirect_uri));
    assert(form_view(f@) =~= exchange_form(client_id@, client_secret@, code@, redirect_uri@));
    f
}

/// Whether an HTTP status is a success (2xx).
pub open spec fn is_success(status: u16) -> bool {
    200 <= status <= 299
}

/// Whether an HTTP status is a success (2xx).
pub fn status_is_success(status: u16) -> (b: bool)
    ensures
        b == is_success(status),
{
    200 <= status && status <= 299
}

/// The message of a refused token request.
pub open spec fn http_error_message(status: u16, body: Seq<char>) -> Seq<char> {
    "Discord returned HTTP "@ + decimal(status as nat) + ": "@ + body
}

/// The error of a token request that Discord refused with `status`.
pub fn http_status_error(status: u16, body: &str) -> (e: Error)
    ensures
        e@ == ErrorView::Network(http_error_message(status, body@)),
{
    let code = decimal_string(status as u64);
    let m = str_concat("Discord returned HTTP ", code.as_str());
    let m = m.concat(": ");
    let m = m.concat(body);
    Error::Network(m)
}

} // verus!
