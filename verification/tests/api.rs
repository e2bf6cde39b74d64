use redbot::AccessTokenResponse;
use redbot::Api;
use redbot::Config;

fn get_config() -> Config {
    Config {
        username: String::new(),
        password: String::new(),
        user_agent: String::new(),
        client_id: String::new(),
        client_secret: String::new(),
    }
}

fn get_api() -> Api {
    Api::new(get_config())
}

fn get_sample_atr() -> String {
    String::from(
        "{\"access_token\":\"aaaaa\",\"token_type\":\"bbbbb\", \
         \"expires_in\":10000,\"scope\":\"ccccc\"}",
    )
}

#[test]
fn access_token_response_serialize() {
    let atr: AccessTokenResponse = AccessTokenResponse::from_json_str(&get_sample_atr()).unwrap();

    assert_eq!(atr.token, String::from("aaaaa"));
    assert_eq!(atr.token_type, String::from("bbbbb"));
    assert_eq!(atr.expires_in, 10000);
    assert_eq!(atr.scope, String::from("ccccc"));
}

#[test]
fn access_token_alias() {
    let atr =
        AccessTokenResponse::from_json_str("{\"token\":\"t\",\"token_type\":\"b\",\"expires_in\":1,\"scope\":\"s\"}")
            .unwrap();
    assert_eq!(atr.token, "t");
}

#[test]
fn access_token_malformed() {
    let e = AccessTokenResponse::from_json_str("{\"token_type\":\"b\"}").unwrap_err();
    assert_eq!(e.source, "serde_json::error::Error");
}

#[test]
fn new_api() {
    let config = get_config();
    let api = get_api();

    assert_eq!(api.config, config);
    assert!(api.access_token.is_none());
    assert!(api.whoami.is_none());
}

#[test]
fn do_login() {
    let mut api = get_api();
    api.login_token_response(&get_sample_atr()).unwrap();
    let whoami_plan = api.whoami_plan();
    assert_eq!(whoami_plan.method, "GET");
    assert_eq!(whoami_plan.url, "https://oauth.reddit.com/api/v1/me");
    assert_eq!(
        whoami_plan.headers[1],
        ("Authorization".to_string(), "bearer aaaaa".to_string())
    );
    api.login_whoami_response("{\"name\":\"test-name\"}").unwrap();
    let username = api.get_username().unwrap();

    assert_eq!(username, "test-name");
    let token = api.access_token.as_ref().unwrap();
    assert_eq!(token.token, "aaaaa");
    assert_eq!(token.token_type, "bbbbb");
    assert_eq!(token.expires_in, 10000);
    assert_eq!(token.scope, "ccccc");
}

#[test]
fn login_token_plan_fields() {
    let mut config = get_config();
    config.username = "u".to_string();
    config.password = "p".to_string();
    config.user_agent = "ua".to_string();
    config.client_id = "ci".to_string();
    config.client_secret = "cs".to_string();
    let api = Api::new(config);
    let plan = api.login_token_plan();
    assert_eq!(plan.url, "https://www.reddit.com/api/v1/access_token");
    assert_eq!(plan.user_agent, "ua");
    assert_eq!(plan.basic_auth_user, "ci");
    assert_eq!(plan.basic_auth_password, "cs");
    assert_eq!(
        plan.form,
        vec![
            ("grant_type".to_string(), "password".to_string()),
            ("username".to_string(), "u".to_string()),
            ("password".to_string(), "p".to_string()),
        ]
    );
}

#[test]
fn login_partial_state() {
    let mut api = get_api();
    api.login_token_response(&get_sample_atr()).unwrap();
    let e = api.login_whoami_response("not json").unwrap_err();
    assert_eq!(e.source, "serde_json::error::Error");
    // the identity step failed, so no identity is cached,
    // but the token from the earlier successful step stays
    assert!(api.access_token.is_some());
    assert!(api.whoami.is_none());
}

#[test]
fn login_bad_token_body() {
    let mut api = get_api();
    let e = api.login_token_response("not json").unwrap_err();
    assert_eq!(e.source, "serde_json::error::Error");
    assert!(api.access_token.is_none());
}

#[test]
fn query_plan_invalid_method() {
    let api = get_api();
    let e = api.query_plan("NOT A METHOD", "some/path", None, None).unwrap_err();
    assert_eq!(e.source, "http::method::InvalidMethod");
}

#[test]
fn query_plan_placeholder_needs_login() {
    let api = get_api();
    let e = api.query_plan("GET", "user/{username}/saved", None, None).unwrap_err();
    assert_eq!(e.source, "");
    let err_text = e.render();
    assert_eq!(
        err_text,
        "API error: No identity is cached to substitute for '{username}'"
    );
}

#[test]
fn query_plan_substitutes_username() {
    let mut api = get_api();
    api.login_token_response(&get_sample_atr()).unwrap();
    api.login_whoami_response("{\"name\":\"bot\"}").unwrap();
    let plan = api.query_plan("GET", "user/{username}/saved", None, None).unwrap();
    assert_eq!(plan.url, "https://oauth.reddit.com/user/bot/saved");
}

#[test]
fn search_plan_fields() {
    let api = get_api();
    let plan = api.search_plan("rust");
    assert_eq!(plan.method, "GET");
    assert_eq!(plan.url, "https://oauth.reddit.com/api/search_reddit_names");
    assert_eq!(
        plan.query,
        Some(vec![
            ("query".to_string(), "rust".to_string()),
            ("exact".to_string(), "false".to_string()),
        ])
    );
}

#[test]
fn name() {
    let u = redbot::models::user::User::from_about("{\"data\":{\"name\":\"test\"}}").unwrap();

    assert_eq!(u.name().unwrap(), "test")
}

#[test]
fn name_missing() {
    let u = redbot::models::user::User::from_about("{\"data\":{}}").unwrap();
    let e = u.name().unwrap_err();
    assert_eq!(e.message, "User about data has no 'data.name' string");
}
