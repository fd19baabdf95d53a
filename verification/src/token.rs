use vstd::prelude::*;

use crate::config::Env;
use crate::encoding::base64_standard;
use crate::encoding::base64_standard_encode;
use crate::errors::EnvKey;
use crate::errors::Error;

verus! {

/// The token endpoint's JSON response. Only `access_token` is used by the
/// flow; the other fields are carried and discarded.
#[derive(Clone, Debug)]
pub struct Token {
    pub access_token: String,
    pub token_type: String,
    pub refresh_token: String,
    pub expires_in: i32,
    pub scope: String,
    pub api_url: String,
}

/// Everything an HTTP client needs to exchange an authorization code for
/// a token: the fixed token endpoint, the Basic-auth header value, and
/// the form fields in order.
#[derive(Clone, Debug)]
pub struct TokenRequest {
    pub url: String,
    pub authorization: String,
    pub form: Vec<(String, String)>,
}

/// The Basic-auth credential: standard base64 of `client_id:client_secret`.
pub open spec fn spec_basic_credentials(client_id: Seq<char>, client_secret: Seq<char>) -> Seq<
    char,
> {
    base64_standard(client_id + ":"@ + client_secret)
}

pub fn base64_encode(client_id: &str, client_secret: &str) -> (r: String)
    ensures
        r@ == spec_basic_credentials(client_id@, client_secret@),
{
    let mut credentials = String::from_str(client_id);
    credentials.append(":");
    credentials.append(client_secret);
    proof {
        assert(credentials@ =~= client_id@ + ":"@ + client_secret@);
    }
    base64_standard_encode(credentials.as_str())
}

/// Whether a token request is the one owed for this environment and code:
/// the fixed endpoint, `Basic` auth over the configured credentials, and
/// the three form fields `code`, `grant_type=authorization_code`,
/// `redirect_uri`.
pub open spec fn token_request_for(
    r: TokenRequest,
    client_id: Seq<char>,
    client_secret: Seq<char>,
    redirect_uri: Seq<char>,
    code: Seq<char>,
) -> bool {
    &&& r.url@ == "https://zoom.us/oauth/token"@
    &&& r.authorization@ == "Basic "@ + spec_basic_credentials(client_id, client_secret)
    &&& r.form@.len() == 3
    &&& r.form@[0].0@ == "code"@ && r.form@[0].1@ == code
    &&& r.form@[1].0@ == "grant_type"@ && r.form@[1].1@ == "authorization_code"@
    &&& r.form@[2].0@ == "redirect_uri"@ && r.form@[2].1@ == redirect_uri
}

/// Builds the token-exchange request from the environment and the
/// authorization code, or reports the first missing variable (checked in
/// the order `client_id`, `client_secret`, `redirect_uri`).
pub fn access_token_request(env: &Env, code: &str) -> (r: Result<TokenRequest, Error>)
    ensures
        env.client_id is None ==> r == Err::<TokenRequest, Error>(
            Error::ConfigMissing(EnvKey::ClientId),
        ),
        env.client_id is Some && env.client_secret is None ==> r == Err::<TokenRequest, Error>(
            Error::ConfigMissing(EnvKey::ClientSecret),
        ),
        env.client_id is Some && env.client_secret is Some && env.redirect_uri is None ==> r
            == Err::<TokenRequest, Error>(Error::ConfigMissing(EnvKey::RedirectUri)),
        env.client_id is Some && env.client_secret is Some && env.redirect_uri is Some ==> (
        r matches Ok(req) && token_request_for(
            req,
            env.client_id->0@,
            env.client_secret->0@,
            env.redirect_uri->0@,
            code@,
        )),
{
    let client_id = match &env.client_id {
        Some(value) => value,
        None => {
            return Err(Error::ConfigMissing(EnvKey::ClientId));
        },
    };
    let client_secret = match &env.client_secret {
        Some(value) => value,
        None => {
            return Err(Error::ConfigMissing(EnvKey::ClientSecret));
        },
    };
    let redirect_uri = match &env.redirect_uri {
        Some(value) => value,
        None => {
            return Err(Error::ConfigMissing(EnvKey::RedirectUri));
        },
    };
    let mut authorization = String::from_str("Basic ");
    let credentials = base64_encode(client_id.as_str(), client_secret.as_str());
    authorization.append(credentials.as_str());
    let mut form: Vec<(String, String)> = Vec::new();
    form.push((String::from_str("code"), String::from_str(code)));
    form.push((String::from_str("grant_type"), String::from_str("authorization_code")));
    form.push((String::from_str("redirect_uri"), redirect_uri.clone()));
    Ok(TokenRequest { url: String::from_str("https://zoom.us/oauth/token"), authorization, form })
}

} // verus!
