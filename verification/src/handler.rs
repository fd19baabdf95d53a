use vstd::prelude::*;

use crate::config::Env;
use crate::errors::EnvKey;
use crate::errors::Error;
use crate::meeting::create_meeting_request;
use crate::meeting::meeting_request_for;
use crate::meeting::MeetingRequest;
use crate::meeting::ZoomMeetingUrls;
use crate::token::access_token_request;
use crate::token::token_request_for;
use crate::token::Token;
use crate::token::TokenRequest;
use crate::urls::spec_authorize_url;
use crate::urls::zoom_oauth_url;

verus! {

/// The endpoint's query: an optional authorization code. Its absence is
/// itself meaningful — it signals the start of the flow.
#[derive(Clone, Debug)]
pub struct Code {
    pub code: Option<String>,
}

/// What the endpoint decides to do next. `Redirect`, `RespondOk` and
/// `Fail` are final responses (307, 200 and 500); `ExchangeToken` and
/// `CreateMeeting` ask the surrounding server to perform one outbound
/// call and hand the outcome back to the next step.
#[derive(Clone, Debug)]
pub enum Action {
    Redirect(String),
    ExchangeToken(TokenRequest),
    CreateMeeting(MeetingRequest),
    RespondOk(ZoomMeetingUrls),
    Fail(Error),
}

impl Action {
    /// The HTTP status of a final action: 307 for the redirect to the
    /// consent URL, 200 for the success payload, 500 for a failure. The
    /// two outbound-call actions are not responses and have no status.
    pub fn status_code(&self) -> (r: Option<u16>)
        ensures
            self is Redirect ==> r == Some(307u16),
            self is RespondOk ==> r == Some(200u16),
            self is Fail ==> r == Some(500u16),
            self is ExchangeToken || self is CreateMeeting ==> r is None,
    {
        match self {
            Action::Redirect(_) => Some(307),
            Action::RespondOk(_) => Some(200),
            Action::Fail(_) => Some(500),
            Action::ExchangeToken(_) => None,
            Action::CreateMeeting(_) => None,
        }
    }
}

/// The first step of handling a request: with no code, redirect to the
/// consent URL (or fail on a missing variable); with a code, ask for the
/// token exchange (or fail on a missing variable).
pub fn zoom_auth_begin(env: &Env, query: Code) -> (r: Action)
    ensures
        query.code is None && env.client_id is None ==> r == Action::Fail(
            Error::ConfigMissing(EnvKey::ClientId),
        ),
        query.code is None && env.client_id is Some && env.redirect_uri is None ==> r
            == Action::Fail(Error::ConfigMissing(EnvKey::RedirectUri)),
        query.code is None && env.client_id is Some && env.redirect_uri is Some ==> (
        r matches Action::Redirect(u) && u@ == spec_authorize_url(
            env.client_id->0@,
            env.redirect_uri->0@,
        )),
        query.code is Some && env.client_id is None ==> r == Action::Fail(
            Error::ConfigMissing(EnvKey::ClientId),
        ),
        query.code is Some && env.client_id is Some && env.client_secret is None ==> r
            == Action::Fail(Error::ConfigMissing(EnvKey::ClientSecret)),
        query.code is Some && env.client_id is Some && env.client_secret is Some
            && env.redirect_uri is None ==> r == Action::Fail(
            Error::ConfigMissing(EnvKey::RedirectUri),
        ),
        query.code is Some && env.client_id is Some && env.client_secret is Some
            && env.redirect_uri is Some ==> (r matches Action::ExchangeToken(req)
            && token_request_for(
            req,
            env.client_id->0@,
            env.client_secret->0@,
            env.redirect_uri->0@,
            query.code->0@,
        )),
{
    match query.code {
        None => match zoom_oauth_url(env) {
            Ok(url) => Action::Redirect(url),
            Err(err) => Action::Fail(err),
        },
        Some(code) => match access_token_request(env, code.as_str()) {
            Ok(req) => Action::ExchangeToken(req),
            Err(err) => Action::Fail(err),
        },
    }
}

/// The step after the token exchange: a token leads to the
/// meeting-creation request for its `access_token`; a failure is final,
/// and no meeting creation is asked for.
pub fn zoom_auth_on_token(outcome: Result<Token, Error>) -> (r: Action)
    ensures
        outcome matches Ok(token) ==> (r matches Action::CreateMeeting(req)
            && meeting_request_for(req, token.access_token@)),
        outcome matches Err(err) ==> r == Action::Fail(err),
{
    match outcome {
        Ok(token) => Action::CreateMeeting(create_meeting_request(token.access_token.as_str())),
        Err(err) => Action::Fail(err),
    }
}

/// The step after the meeting creation: the URLs are returned to the
/// caller unchanged; a failure is final.
pub fn zoom_auth_on_meeting(outcome: Result<ZoomMeetingUrls, Error>) -> (r: Action)
    ensures
        outcome matches Ok(urls) ==> r == Action::RespondOk(urls),
        outcome matches Err(err) ==> r == Action::Fail(err),
{
    match outcome {
        Ok(urls) => Action::RespondOk(urls),
        Err(err) => Action::Fail(err),
    }
}

} // verus!
