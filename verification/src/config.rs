use vstd::prelude::*;

verus! {

/// The credential values found in the process environment when a request
/// is handled. A `None` field records that the variable was absent; which
/// variables a step of the flow actually requires is decided by that
/// step, not here.
#[derive(Clone, Debug)]
pub struct Env {
    pub client_id: Option<String>,
    pub client_secret: Option<String>,
    pub redirect_uri: Option<String>,
}

impl Env {
    pub fn new(
        client_id: Option<String>,
        client_secret: Option<String>,
        redirect_uri: Option<String>,
    ) -> (r: Env)
        ensures
            r.client_id == client_id,
            r.client_secret == client_secret,
            r.redirect_uri == redirect_uri,
    {
        Env { client_id, client_secret, redirect_uri }
    }
}

} // verus!
