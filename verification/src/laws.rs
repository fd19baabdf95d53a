use vstd::prelude::*;

use crate::config::Env;
use crate::errors::EnvKey;
use crate::errors::Error;
use crate::handler::Action;
use crate::token::Token;
use crate::urls::spec_authorize_url;

verus! {

/// Building the consent URL twice from an unchanged environment gives
/// byte-identical URLs: any two results that meet `zoom_oauth_url`'s
/// contract for the same environment are equal.
pub proof fn lemma_authorize_url_idempotent(
    env: Env,
    r1: Result<String, Error>,
    r2: Result<String, Error>,
)
    requires
        env.client_id is Some,
        env.redirect_uri is Some,
        r1 matches Ok(u1) && u1@ == spec_authorize_url(env.client_id->0@, env.redirect_uri->0@),
        r2 matches Ok(u2) && u2@ == spec_authorize_url(env.client_id->0@, env.redirect_uri->0@),
    ensures
        r1->Ok_0@ == r2->Ok_0@,
{
}

/// A missing-variable failure names the variable: the message of
/// `ConfigMissing(key)` ends with the variable's name, so the
/// internal-error body carries it.
pub proof fn lemma_config_error_names_variable(key: EnvKey)
    ensures
        Error::ConfigMissing(key).spec_message().len() >= key.spec_name().len(),
        Error::ConfigMissing(key).spec_message().subrange(
            Error::ConfigMissing(key).spec_message().len() - key.spec_name().len(),
            Error::ConfigMissing(key).spec_message().len() as int,
        ) == key.spec_name(),
{
    let prefix = "environment variable not found: "@;
    let msg = Error::ConfigMissing(key).spec_message();
    assert(msg == prefix + key.spec_name());
    assert(msg.subrange(prefix.len() as int, msg.len() as int) =~= key.spec_name());
}

/// A failed token exchange is final: the next action is the
/// internal-error response carrying that failure, never a
/// meeting-creation request.
pub proof fn lemma_failed_exchange_never_creates_meeting(
    outcome: Result<Token, Error>,
    next: Action,
)
    requires
        outcome is Err,
        outcome matches Err(err) ==> next == Action::Fail(err),
    ensures
        next is Fail,
        !(next is CreateMeeting),
{
}

} // verus!
