use redbot::Api;
use redbot::Config;
use redbot::QueryListingRequest;

fn get_api() -> Api {
    Api::new(Config {
        username: String::new(),
        password: String::new(),
        user_agent: String::new(),
        client_id: String::new(),
        client_secret: String::new(),
    })
}

fn page_body(after: &str, ids: &[&str]) -> String {
    let children: Vec<String> = ids
        .iter()
        .map(|id| format!("{{\"data\":{{\"id\":\"{}\"}},\"kind\":\"t3\"}}", id))
        .collect();
    format!(
        "{{\"data\":{{\"kind\":\"Listing\",\"after\":\"{}\",\"children\":[{}]}}}}",
        after,
        children.join(",")
    )
}

#[test]
fn query_listing() {
    let body = page_body("t3_ccccc", &["aaaaa", "bbbbb", "ccccc"]);
    let ql = QueryListingRequest::new("some/endpoint", 3, 1);
    let mut fetch = get_api().start_listing(&ql).unwrap();

    assert_eq!(fetch.url, "https://oauth.reddit.com/some/endpoint");
    assert!(!fetch.done());
    let params = fetch.page_params();
    assert_eq!(
        params,
        vec![
            ("limit".to_string(), "3".to_string()),
            ("show".to_string(), "all".to_string()),
        ]
    );
    fetch.on_response(200, &body).unwrap();
    assert!(fetch.done());
    let values = fetch.into_items();

    assert_eq!(values.len(), 3);
}

#[test]
fn cursor_threading() {
    // three sequential page requests: each one's `after` parameter equals
    // the prior response's `data.after`; the first omits it
    let ql = QueryListingRequest::new("r/rust/top", 2, 3);
    let mut fetch = get_api().start_listing(&ql).unwrap();

    let p1 = fetch.page_params();
    assert!(!p1.iter().any(|p| p.0 == "after"));

    fetch.on_response(200, &page_body("t3_first", &["a", "b"])).unwrap();
    let p2 = fetch.page_params();
    assert!(p2.contains(&("after".to_string(), "t3_first".to_string())));
    assert!(p2.contains(&("count".to_string(), "2".to_string())));

    fetch.on_response(200, &page_body("t3_second", &["c", "d"])).unwrap();
    let p3 = fetch.page_params();
    assert!(p3.contains(&("after".to_string(), "t3_second".to_string())));
    assert!(p3.contains(&("count".to_string(), "4".to_string())));

    fetch.on_response(200, &page_body("t3_third", &["e"])).unwrap();
    assert!(fetch.done());
    assert_eq!(fetch.items.len(), 5);
}

#[test]
fn initial_cursor_used() {
    let ql = QueryListingRequest::new("r/rust/top", 25, 2).after(Some("t3_aaaaa")).count(12);
    let fetch = get_api().start_listing(&ql).unwrap();
    let params = fetch.page_params();
    assert_eq!(
        params,
        vec![
            ("limit".to_string(), "25".to_string()),
            ("after".to_string(), "t3_aaaaa".to_string()),
            ("count".to_string(), "12".to_string()),
            ("show".to_string(), "all".to_string()),
        ]
    );
}

#[test]
fn extra_params_kept() {
    let extra = vec![("t", "week")];
    let ql = QueryListingRequest::new("r/rust/top", 1, 1).params(&extra).show_all(false);
    let fetch = get_api().start_listing(&ql).unwrap();
    let params = fetch.page_params();
    assert_eq!(
        params,
        vec![
            ("t".to_string(), "week".to_string()),
            ("limit".to_string(), "1".to_string()),
        ]
    );
}

#[test]
fn error_status_aborts() {
    // an error status fails the whole fetch and keeps no items of the page
    let ql = QueryListingRequest::new("some/endpoint", 3, 2);
    let mut fetch = get_api().start_listing(&ql).unwrap();
    fetch.on_response(200, &page_body("t3_x", &["a"])).unwrap();
    let e = fetch.on_response(503, &page_body("t3_y", &["b", "c"])).unwrap_err();
    assert_eq!(e.source, "");
    assert_eq!(e.message, "Server error, code 503");
    assert_eq!(e.render(), "API error: Server error, code 503");
    // the state is exactly what it was before the failing page
    assert_eq!(fetch.items.len(), 1);
    assert_eq!(fetch.after, "t3_x");
    assert!(!fetch.done());
}

#[test]
fn client_error_status_aborts() {
    let ql = QueryListingRequest::new("some/endpoint", 3, 1);
    let mut fetch = get_api().start_listing(&ql).unwrap();
    let e = fetch.on_response(404, "{}").unwrap_err();
    assert_eq!(e.message, "Server error, code 404");
    assert!(fetch.items.is_empty());
}

#[test]
fn undecodable_page_aborts() {
    let ql = QueryListingRequest::new("some/endpoint", 3, 1);
    let mut fetch = get_api().start_listing(&ql).unwrap();
    let e = fetch.on_response(200, "not json").unwrap_err();
    assert_eq!(e.source, "serde_json::error::Error");
}

#[test]
fn missing_after_aborts() {
    let ql = QueryListingRequest::new("some/endpoint", 3, 1);
    let mut fetch = get_api().start_listing(&ql).unwrap();
    let e = fetch.on_response(200, "{\"data\":{\"children\":[]}}").unwrap_err();
    assert_eq!(e.source, "");
    assert_eq!(e.message, "Listing response has no 'data.after' string");
}

#[test]
fn missing_children_aborts() {
    let ql = QueryListingRequest::new("some/endpoint", 3, 1);
    let mut fetch = get_api().start_listing(&ql).unwrap();
    let e = fetch.on_response(200, "{\"data\":{\"after\":\"t3_x\"}}").unwrap_err();
    assert_eq!(e.source, "");
    assert_eq!(e.message, "Listing response has no 'data.children' array");
}
