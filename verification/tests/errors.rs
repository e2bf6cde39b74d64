use redbot::ApiError;

#[test]
fn from_string() {
    let msg = String::from("some erorr");
    let expected = ApiError {
        source: String::new(),
        message: msg.clone(),
    };
    let actual = ApiError::from(msg);

    assert_eq!(actual, expected);
}

#[test]
fn display_no_source() {
    let e = ApiError {
        source: String::new(),
        message: String::from("something"),
    };
    let expected = String::from("API error: something");
    let actual = e.render();

    assert_eq!(actual, expected);
}

#[test]
fn display_with_source() {
    let e = ApiError {
        source: String::from("somewhere"),
        message: String::from("something"),
    };
    let expected = String::from("API error from 'somewhere': something");
    let actual = e.render();

    assert_eq!(actual, expected);
}

#[test]
fn from_serde_json_error() {
    let bad = serde_json::from_str::<serde_json::Value>("{");
    let e = ApiError::from(bad.unwrap_err());
    assert_eq!(e.source, "serde_json::error::Error");
}

#[test]
fn from_io_error() {
    let io = std::io::Error::new(std::io::ErrorKind::NotFound, "gone");
    let e = ApiError::from(io);
    assert_eq!(e.source, "std::io::Error");
}
