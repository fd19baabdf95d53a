use zoom_oauth::access_token_request;
use zoom_oauth::base64_encode;
use zoom_oauth::create_meeting_request;
use zoom_oauth::zoom_auth_begin;
use zoom_oauth::zoom_auth_on_meeting;
use zoom_oauth::zoom_auth_on_token;
use zoom_oauth::zoom_oauth_url;
use zoom_oauth::Action;
use zoom_oauth::Code;
use zoom_oauth::EnvKey;
use zoom_oauth::Error;
use zoom_oauth::Token;
use zoom_oauth::ZoomMeetingUrls;
use zoom_oauth::Env;

fn full_env() -> Env {
    Env {
        client_id: Some("abc123".to_string()),
        client_secret: Some("s3cret".to_string()),
        redirect_uri: Some("http://localhost:8000/zoom-auth".to_string()),
    }
}

fn sample_token(access_token: &str) -> Token {
    Token {
        access_token: access_token.to_string(),
        token_type: "bearer".to_string(),
        refresh_token: "refresh".to_string(),
        expires_in: 3600,
        scope: "meeting:write".to_string(),
        api_url: "https://api.zoom.us".to_string(),
    }
}

#[test]
fn redirect_url_is_the_consent_url() {
    let env = full_env();
    match zoom_auth_begin(&env, Code { code: None }) {
        Action::Redirect(url) => {
            assert_eq!(
                url,
                "https://zoom.us/oauth/authorize?response_type=code&client_id=abc123\
                 &redirect_uri=http%3A%2F%2Flocalhost%3A8000%2Fzoom-auth"
            );
        }
        other => panic!("expected a redirect, got {:?}", other),
    }
}

#[test]
fn redirect_url_percent_encodes_the_values() {
    let env = Env {
        client_id: Some("a b&c".to_string()),
        client_secret: None,
        redirect_uri: Some("http://h/p?q=1".to_string()),
    };
    match zoom_oauth_url(&env) {
        Ok(url) => {
            assert_eq!(
                url,
                "https://zoom.us/oauth/authorize?response_type=code&client_id=a+b%26c\
                 &redirect_uri=http%3A%2F%2Fh%2Fp%3Fq%3D1"
            );
        }
        Err(err) => panic!("expected a URL, got {:?}", err),
    }
}

#[test]
fn authorize_url_builder_is_idempotent() {
    let env = full_env();
    let first = zoom_oauth_url(&env).unwrap();
    let second = zoom_oauth_url(&env).unwrap();
    assert_eq!(first, second);
}

#[test]
fn missing_client_id_fails_naming_the_variable() {
    let env = Env {
        client_id: None,
        client_secret: Some("s3cret".to_string()),
        redirect_uri: Some("http://localhost:8000/zoom-auth".to_string()),
    };
    match zoom_auth_begin(&env, Code { code: None }) {
        Action::Fail(err) => {
            let (status, body) = err.response_parts();
            assert_eq!(status, 500);
            assert_eq!(body, "Error: environment variable not found: client_id");
            assert!(body.contains("client_id"));
        }
        other => panic!("expected a failure, got {:?}", other),
    }
}

#[test]
fn missing_redirect_uri_fails_naming_the_variable() {
    let env = Env {
        client_id: Some("abc123".to_string()),
        client_secret: Some("s3cret".to_string()),
        redirect_uri: None,
    };
    match zoom_auth_begin(&env, Code { code: None }) {
        Action::Fail(Error::ConfigMissing(key)) => {
            assert_eq!(key, EnvKey::RedirectUri);
            assert_eq!(key.name(), "redirect_uri");
        }
        other => panic!("expected a missing-variable failure, got {:?}", other),
    }
}

#[test]
fn missing_client_secret_fails_the_exchange_branch_only() {
    let env = Env {
        client_id: Some("abc123".to_string()),
        client_secret: None,
        redirect_uri: Some("http://localhost:8000/zoom-auth".to_string()),
    };
    // The redirect branch does not need the secret.
    match zoom_auth_begin(&env, Code { code: None }) {
        Action::Redirect(_) => {}
        other => panic!("expected a redirect, got {:?}", other),
    }
    // The exchange branch does.
    match zoom_auth_begin(&env, Code { code: Some("c0de".to_string()) }) {
        Action::Fail(Error::ConfigMissing(key)) => assert_eq!(key, EnvKey::ClientSecret),
        other => panic!("expected a missing-variable failure, got {:?}", other),
    }
}

#[test]
fn basic_auth_value_is_standard_base64_of_the_credentials() {
    assert_eq!(base64_encode("abc", "xyz"), "YWJjOnh5eg==");
}

#[test]
fn token_request_has_basic_auth_and_the_form_fields() {
    let env = Env {
        client_id: Some("abc".to_string()),
        client_secret: Some("xyz".to_string()),
        redirect_uri: Some("http://localhost:8000/zoom-auth".to_string()),
    };
    let req = access_token_request(&env, "c0de").unwrap();
    assert_eq!(req.url, "https://zoom.us/oauth/token");
    assert_eq!(req.authorization, "Basic YWJjOnh5eg==");
    assert_eq!(
        req.form,
        vec![
            ("code".to_string(), "c0de".to_string()),
            ("grant_type".to_string(), "authorization_code".to_string()),
            (
                "redirect_uri".to_string(),
                "http://localhost:8000/zoom-auth".to_string()
            ),
        ]
    );
}

#[test]
fn begin_with_a_code_asks_for_the_exchange() {
    let env = full_env();
    match zoom_auth_begin(&env, Code { code: Some("c0de".to_string()) }) {
        Action::ExchangeToken(req) => {
            assert_eq!(req.url, "https://zoom.us/oauth/token");
            assert_eq!(req.form[0], ("code".to_string(), "c0de".to_string()));
        }
        other => panic!("expected a token exchange, got {:?}", other),
    }
}

#[test]
fn meeting_request_carries_the_bearer_token_and_the_fixed_payload() {
    let req = create_meeting_request("tok-123");
    assert_eq!(req.url, "https://api.zoom.us/v2/users/me/meetings");
    assert_eq!(req.authorization, "Bearer tok-123");
    assert_eq!(req.payload.topic, "topic");
    assert_eq!(req.payload.meeting_type, 2);
    assert_eq!(req.payload.start_time, "2024-12-25T10:00:00Z");
    assert_eq!(req.payload.duration, 30);
    assert_eq!(req.payload.timezone, "Asia/Tokyo");
    assert!(req.payload.settings.host_video);
    assert!(req.payload.settings.participant_video);
}

#[test]
fn a_token_leads_to_the_meeting_creation_and_the_urls_come_back_unchanged() {
    // A fixed token from a stubbed exchange.
    match zoom_auth_on_token(Ok(sample_token("tok-fixed"))) {
        Action::CreateMeeting(req) => assert_eq!(req.authorization, "Bearer tok-fixed"),
        other => panic!("expected a meeting creation, got {:?}", other),
    }
    // A fixed pair of URLs from a stubbed creation endpoint.
    let urls = ZoomMeetingUrls {
        start_url: "https://zoom.us/s/1".to_string(),
        join_url: "https://zoom.us/j/1".to_string(),
    };
    match zoom_auth_on_meeting(Ok(urls)) {
        Action::RespondOk(out) => {
            assert_eq!(out.start_url, "https://zoom.us/s/1");
            assert_eq!(out.join_url, "https://zoom.us/j/1");
        }
        other => panic!("expected a success response, got {:?}", other),
    }
}

#[test]
fn a_failed_exchange_is_final_and_creates_no_meeting() {
    let mut meeting_calls: usize = 0;
    let outcome = Err(Error::UpstreamResponseInvalid("missing field".to_string()));
    let action = zoom_auth_on_token(outcome);
    if let Action::CreateMeeting(_) = &action {
        meeting_calls += 1;
    }
    assert_eq!(meeting_calls, 0);
    match action {
        Action::Fail(err) => {
            let (status, body) = err.response_parts();
            assert_eq!(status, 500);
            assert_eq!(
                body,
                "Error: unexpected response from the remote endpoint: missing field"
            );
        }
        other => panic!("expected a failure, got {:?}", other),
    }
}

#[test]
fn final_actions_carry_their_status_codes() {
    let env = full_env();
    let redirect = zoom_auth_begin(&env, Code { code: None });
    assert_eq!(redirect.status_code(), Some(307));
    let exchange = zoom_auth_begin(&env, Code { code: Some("c0de".to_string()) });
    assert_eq!(exchange.status_code(), None);
    let ok = zoom_auth_on_meeting(Ok(ZoomMeetingUrls {
        start_url: "s".to_string(),
        join_url: "j".to_string(),
    }));
    assert_eq!(ok.status_code(), Some(200));
    let failed = zoom_auth_on_meeting(Err(Error::UpstreamRequestFailed("down".to_string())));
    assert_eq!(failed.status_code(), Some(500));
}

#[test]
fn a_failed_meeting_creation_is_a_server_error() {
    let action = zoom_auth_on_meeting(Err(Error::UpstreamRequestFailed(
        "connection refused".to_string(),
    )));
    match action {
        Action::Fail(err) => {
            assert_eq!(
                err.message(),
                "request to the remote endpoint failed: connection refused"
            );
        }
        other => panic!("expected a failure, got {:?}", other),
    }
}
