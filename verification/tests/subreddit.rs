use redbot::Api;
use redbot::Config;
use redbot::Subreddit;

fn get_api() -> Api {
    Api::new(Config {
        username: String::new(),
        password: String::new(),
        user_agent: String::new(),
        client_id: String::new(),
        client_secret: String::new(),
    })
}

fn page_body(after: &str, n: usize) -> String {
    let children: Vec<String> = (0..n)
        .map(|i| format!("{{\"data\":{{\"id\":\"p{}\"}},\"kind\":\"t3\"}}", i))
        .collect();
    format!(
        "{{\"data\":{{\"after\":\"{}\",\"children\":[{}]}}}}",
        after,
        children.join(",")
    )
}

#[test]
fn search_for_subreddit() {
    let body = "{\"names\":[\"rust1\",\"rust2\",\"rust3\"]}";
    let srs = Subreddit::search_response(200, body).unwrap();

    assert_eq!(srs.len(), 3);
}

#[test]
fn search_order_kept() {
    // one wrapper entry per name, in the response's order
    let body = "{\"names\":[\"zebra\",\"alpha\",\"mid\"]}";
    let srs = Subreddit::search_response(200, body).unwrap();
    let names: Vec<&str> = srs.iter().map(|s| s.name.as_str()).collect();
    assert_eq!(names, vec!["zebra", "alpha", "mid"]);
}

#[test]
fn search_empty_names() {
    let srs = Subreddit::search_response(200, "{\"names\":[]}").unwrap();
    assert!(srs.is_empty());
}

#[test]
fn search_error_status() {
    let e = Subreddit::search_response(500, "{\"names\":[]}").unwrap_err();
    assert_eq!(e.message, "Server error, code 500");
}

#[test]
fn search_missing_names() {
    let e = Subreddit::search_response(200, "{}").unwrap_err();
    assert_eq!(e.message, "Search response has no 'names' array");
}

#[test]
fn get_subreddit() {
    let body = "{\"names\":[\"rust\",\"rust1\",\"rust2\"]}";
    let srs = Subreddit::search_response(200, body).unwrap();
    let sr = Subreddit::find_exact(&srs, "rust1").unwrap();

    assert_eq!(sr.name, "rust1");
}

#[test]
fn get_subreddit_not_found() {
    // wildcard matches exist, but none is exact
    let body = "{\"names\":[\"rusty\",\"rustlang\",\"rust2\"]}";
    let srs = Subreddit::search_response(200, body).unwrap();
    let e = Subreddit::find_exact(&srs, "rust").unwrap_err();
    assert_eq!(e.source, "");
    assert_eq!(e.message, "Subreddit not found");
}

#[test]
fn get_top_small_count() {
    // a request for at most 100 items is one page of exactly that size
    let api = get_api();
    let sr = Subreddit { name: "rust".to_string() };
    let mut fetch = sr.get_top_plan(&api, 50).unwrap();
    assert_eq!(fetch.url, "https://oauth.reddit.com/r/rust/top");
    assert_eq!(fetch.limit, 50);
    assert_eq!(fetch.remaining, 1);
    let params = fetch.page_params();
    assert!(params.contains(&("limit".to_string(), "50".to_string())));

    // the server hands back more than asked; the result is trimmed to 50
    fetch.on_response(200, &page_body("t3_x", 60)).unwrap();
    assert!(fetch.done());
    let posts = Subreddit::take_items(fetch.into_items(), 50);
    assert_eq!(posts.len(), 50);
}

#[test]
fn get_top_truncated_split() {
    // 250 requested: two pages of 100 each (integer division), so at most
    // 200 items come back even though 250 were asked for
    let api = get_api();
    let sr = Subreddit { name: "rust".to_string() };
    let mut fetch = sr.get_top_plan(&api, 250).unwrap();
    assert_eq!(fetch.limit, 100);
    assert_eq!(fetch.remaining, 2);

    fetch.on_response(200, &page_body("t3_a", 100)).unwrap();
    fetch.on_response(200, &page_body("t3_b", 100)).unwrap();
    assert!(fetch.done());
    let posts = Subreddit::take_items(fetch.into_items(), 250);
    assert_eq!(posts.len(), 200);
}

#[test]
fn take_items_exact() {
    let items: Vec<serde_json::Value> =
        serde_json::from_str::<Vec<serde_json::Value>>("[1,2,3,4]").unwrap();
    assert_eq!(Subreddit::take_items(items.clone(), 2).len(), 2);
    assert_eq!(Subreddit::take_items(items.clone(), 4).len(), 4);
    assert_eq!(Subreddit::take_items(items, 9).len(), 4);
}
