use vstd::prelude::*;

verus! {

/// The environment variables the service reads its credentials from.
#[derive(Clone, Copy, Debug, PartialEq, Eq, Structural)]
pub enum EnvKey {
    ClientId,
    ClientSecret,
    RedirectUri,
}

impl EnvKey {
    /// The variable's name, as it appears in the process environment.
    pub open spec fn spec_name(self) -> Seq<char> {
        match self {
            EnvKey::ClientId => "client_id"@,
            EnvKey::ClientSecret => "client_secret"@,
            EnvKey::RedirectUri => "redirect_uri"@,
        }
    }

    pub fn name(&self) -> (r: &'static str)
        ensures
            r@ == self.spec_name(),
    {
        match self {
            EnvKey::ClientId => "client_id",
            EnvKey::ClientSecret => "client_secret",
            EnvKey::RedirectUri => "redirect_uri",
        }
    }
}

/// Everything that can go wrong while handling a request: a credential
/// absent from the environment, a failed outbound call, or a remote
/// response that does not have the expected shape. Every variant is
/// rendered to the caller as a plain-text internal-error body.
#[derive(Clone, Debug)]
pub enum Error {
    ConfigMissing(EnvKey),
    UpstreamRequestFailed(String),
    UpstreamResponseInvalid(String),
}

impl Error {
    /// The human-readable detail of this error.
    pub open spec fn spec_message(self) -> Seq<char> {
        match self {
            Error::ConfigMissing(key) => "environment variable not found: "@ + key.spec_name(),
            Error::UpstreamRequestFailed(detail) => "request to the remote endpoint failed: "@
                + detail@,
            Error::UpstreamResponseInvalid(detail) => "unexpected response from the remote endpoint: "@
                + detail@,
        }
    }

    pub fn message(&self) -> (r: String)
        ensures
            r@ == self.spec_message(),
    {
        match self {
            Error::ConfigMissing(key) => {
                let mut s = String::from_str("environment variable not found: ");
                s.append(key.name());
                s
            },
            Error::UpstreamRequestFailed(detail) => {
                let mut s = String::from_str("request to the remote endpoint failed: ");
                s.append(detail.as_str());
                s
            },
            Error::UpstreamResponseInvalid(detail) => {
                let mut s = String::from_str("unexpected response from the remote endpoint: ");
                s.append(detail.as_str());
                s
            },
        }
    }

    /// The plain-text body of the internal-error response, together with
    /// its HTTP status code, 500.
    pub fn response_parts(&self) -> (r: (u16, String))
        ensures
            r.0 == 500u16,
            r.1@ == "Error: "@ + self.spec_message(),
    {
        let mut body = String::from_str("Error: ");
        let message = self.message();
        body.append(message.as_str());
        (500, body)
    }
}

} // verus!
