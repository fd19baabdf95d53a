use vstd::prelude::*;

use crate::config::Env;
use crate::encoding::form_encoded;
use crate::encoding::form_urlencode;
use crate::errors::EnvKey;
use crate::errors::Error;

verus! {

/// The OAuth consent URL: the provider's authorization endpoint with the
/// query parameters `response_type=code`, `client_id` and `redirect_uri`,
/// in that order, the values form-urlencoded.
pub open spec fn spec_authorize_url(client_id: Seq<char>, redirect_uri: Seq<char>) -> Seq<char> {
    "https://zoom.us/oauth/authorize?response_type=code&client_id="@ + form_encoded(client_id)
        + "&redirect_uri="@ + form_encoded(redirect_uri)
}

/// Builds the consent URL from the environment, or reports the first
/// missing variable (`client_id` is checked before `redirect_uri`; the
/// client secret is not needed for this step).
pub fn zoom_oauth_url(env: &Env) -> (r: Result<String, Error>)
    ensures
        env.client_id is None ==> r == Err::<String, Error>(
            Error::ConfigMissing(EnvKey::ClientId),
        ),
        env.client_id is Some && env.redirect_uri is None ==> r == Err::<String, Error>(
            Error::ConfigMissing(EnvKey::RedirectUri),
        ),
        env.client_id is Some && env.redirect_uri is Some ==> (r matches Ok(u) && u@
            == spec_authorize_url(env.client_id->0@, env.redirect_uri->0@)),
{
    let client_id = match &env.client_id {
        Some(value) => value,
        None => {
            return Err(Error::ConfigMissing(EnvKey::ClientId));
        },
    };
    let redirect_uri = match &env.redirect_uri {
        Some(value) => value,
        None => {
            return Err(Error::ConfigMissing(EnvKey::RedirectUri));
        },
    };
    let mut url = String::from_str("https://zoom.us/oauth/authorize?response_type=code&client_id=");
    let encoded_id = form_urlencode(client_id.as_str());
    url.append(encoded_id.as_str());
    url.append("&redirect_uri=");
    let encoded_uri = form_urlencode(redirect_uri.as_str());
    url.append(encoded_uri.as_str());
    proof {
        assert(url@ =~= spec_authorize_url(client_id@, redirect_uri@));
    }
    Ok(url)
}

} // verus!
