use discord_social_rpc::utils::{
    exchange_code_form, http_status_error, refresh_token_form, status_is_success,
    token_endpoint_url,
};
use discord_social_rpc::{CodeExchangeResponse, Error, TokenRefreshResponse};

fn pairs(v: &[(&str, &str)]) -> Vec<(String, String)> {
    v.iter().map(|(a, b)| (a.to_string(), b.to_string())).collect()
}

#[test]
fn token_forms() {
    assert_eq!(token_endpoint_url(), "https://discord.com/api/v10/oauth2/token");
    assert_eq!(
        refresh_token_form("id", "secret", "rt"),
        pairs(&[("client_id", "id"), ("client_secret", "secret"), ("grant_type", "refresh_token"), ("refresh_token", "rt")])
    );
    assert_eq!(
        exchange_code_form("id", "secret", "code", "https://r"),
        pairs(&[
            ("client_id", "id"),
            ("client_secret", "secret"),
            ("grant_type", "authorization_code"),
            ("code", "code"),
            ("redirect_uri", "https://r"),
        ])
    );
}

#[test]
fn http_status_handling() {
    assert!(status_is_success(200));
    assert!(status_is_success(204));
    assert!(!status_is_success(199));
    assert!(!status_is_success(301));
    assert!(!status_is_success(401));
    match http_status_error(401, "{\"error\":\"invalid_grant\"}") {
        Error::Network(m) => assert_eq!(m, "Discord returned HTTP 401: {\"error\":\"invalid_grant\"}"),
        _ => panic!("expected a network error"),
    }
}

#[test]
fn response_types_hold_fields() {
    let r = TokenRefreshResponse { access_token: "a".to_string(), refresh_token: None, expires_in: 604800 };
    assert_eq!(r.clone().expires_in, 604800);
    let c = CodeExchangeResponse { access_token: "a".to_string(), refresh_token: "r".to_string(), expires_in: 1 };
    assert_eq!(c.clone().refresh_token, "r");
}

#[test]
fn error_messages() {
    let s = || "x".to_string();
    assert_eq!(Error::InvalidToken(s()).message(), "Invalid OAuth2 token: x");
    assert_eq!(Error::Network(s()).message(), "Network error: x");
    assert_eq!(Error::WebSocket(s()).message(), "WebSocket error: x");
    assert_eq!(Error::Gateway(s()).message(), "Gateway error: x");
    assert_eq!(Error::ExternalAssets(s()).message(), "External assets error: x");
    assert_eq!(Error::AlreadyStopped.message(), "Activity already stopped");
    assert_eq!(Error::NotStarted.message(), "Client not started. Call start_activity() first");
    assert_eq!(Error::Serialization(s()).message(), "Serialization error: x");
    assert_eq!(Error::Runtime(s()).message(), "Runtime error: x");
}
