mod config;
mod encoding;
mod errors;
mod handler;
mod laws;
mod meeting;
mod token;
mod urls;

pub use config::Env;
pub use encoding::base64_standard;
pub use encoding::form_encoded;
pub use errors::EnvKey;
pub use errors::Error;
pub use handler::zoom_auth_begin;
pub use handler::zoom_auth_on_meeting;
pub use handler::zoom_auth_on_token;
pub use handler::Action;
pub use handler::Code;
pub use laws::lemma_authorize_url_idempotent;
pub use laws::lemma_config_error_names_variable;
pub use laws::lemma_failed_exchange_never_creates_meeting;
pub use meeting::create_meeting_request;
pub use meeting::meeting_request_for;
pub use meeting::MeetingRequest;
pub use meeting::ZoomMeeting;
pub use meeting::ZoomMeetingSettings;
pub use meeting::ZoomMeetingUrls;
pub use token::access_token_request;
pub use token::base64_encode;
pub use token::spec_basic_credentials;
pub use token::token_request_for;
pub use token::Token;
pub use token::TokenRequest;
pub use urls::spec_authorize_url;
pub use urls::zoom_oauth_url;
