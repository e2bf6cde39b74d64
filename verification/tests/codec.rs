use redbot::codec::encode_config;
use redbot::Config;

fn sample() -> Config {
    Config {
        username: "my-bot-account".to_string(),
        password: "hunter2".to_string(),
        user_agent: "linux:reddit-rust:v.0.0.1 (bot by /u/my-main-account)".to_string(),
        client_id: "foo".to_string(),
        client_secret: "bar".to_string(),
    }
}

#[test]
fn config_decode() {
    let content = "{\"username\":\"a\",\"password\":\"b\", \
                   \"user_agent\":\"c\",\"client_id\":\"d\",\"client_secret\":\"e\"}";
    let config = Config::from_json_str(content).unwrap();

    assert_eq!(config.username, "a");
    assert_eq!(config.password, "b");
    assert_eq!(config.user_agent, "c");
    assert_eq!(config.client_id, "d");
    assert_eq!(config.client_secret, "e");
}

#[test]
fn config_decode_whitespace_and_escapes() {
    let content = "{\n  \"username\": \"a\\\"b\",\n  \"password\": \"x\\\\y\",\n  \
                   \"user_agent\": \"tab\\there\",\n  \"client_id\": \"\\u0041\",\n  \
                   \"client_secret\": \"e\"\n}\n";
    let config = Config::from_json_str(content).unwrap();

    assert_eq!(config.username, "a\"b");
    assert_eq!(config.password, "x\\y");
    assert_eq!(config.user_agent, "tab\there");
    assert_eq!(config.client_id, "A");
    assert_eq!(config.client_secret, "e");
}

#[test]
fn config_decode_any_member_order() {
    let content = "{\"client_secret\":\"e\",\"username\":\"a\",\"client_id\":\"d\", \
                   \"password\":\"b\",\"user_agent\":\"c\"}";
    let config = Config::from_json_str(content).unwrap();

    assert_eq!(config.username, "a");
    assert_eq!(config.password, "b");
    assert_eq!(config.user_agent, "c");
    assert_eq!(config.client_id, "d");
    assert_eq!(config.client_secret, "e");
}

#[test]
fn config_decode_rejects_duplicate_member() {
    let content = "{\"username\":\"a\",\"username\":\"x\",\"user_agent\":\"c\", \
                   \"client_id\":\"d\",\"client_secret\":\"e\"}";
    let e = Config::from_json_str(content).unwrap_err();
    assert_eq!(e.source, "serde_json::error::Error");
}

#[test]
fn config_round_trip() {
    // decoding the encoded form reproduces the value exactly
    let original = sample();
    let encoded = encode_config(&original);
    let decoded = Config::from_json_str(&encoded).unwrap();
    assert_eq!(decoded, original);
}

#[test]
fn config_round_trip_special_chars() {
    let original = Config {
        username: "quote\" and \\ backslash".to_string(),
        password: "line\nbreak and tab\t!".to_string(),
        user_agent: "unicode \u{263a} stays".to_string(),
        client_id: String::new(),
        client_secret: "{\"nested\":\"json\"}".to_string(),
    };
    let encoded = encode_config(&original);
    let decoded = Config::from_json_str(&encoded).unwrap();
    assert_eq!(decoded, original);
}

#[test]
fn config_decode_rejects_garbage() {
    let e = Config::from_json_str("not a config").unwrap_err();
    assert_eq!(e.source, "serde_json::error::Error");
    let e2 = Config::from_json_str("{\"username\":\"a\"}").unwrap_err();
    assert_eq!(e2.source, "serde_json::error::Error");
    let e3 = Config::from_json_str("").unwrap_err();
    assert_eq!(e3.source, "serde_json::error::Error");
}
