use redbot::QueryListingRequest;

#[test]
fn simple() {
    let path = "p";
    let limit = 1;
    let requests = 2;

    let ql = QueryListingRequest::new(path, limit, requests);

    assert_eq!(ql.path, path);
    assert_eq!(ql.limit, limit);
    assert_eq!(ql.requests, requests);
    assert_eq!(ql.params, &[]);
    assert_eq!(ql.after, None);
    assert_eq!(ql.count, 0);
    assert_eq!(ql.show_all, true);
}

#[test]
fn with_builders() {
    let path = "p";
    let limit = 1;
    let requests = 2;
    let params = vec![("a", "b")];
    let after = Some("t3_aaa");
    let count = 3;
    let show_all = false;

    let ql = QueryListingRequest::new(path, limit, requests)
        .params(&params)
        .after(after)
        .count(count)
        .show_all(show_all);

    assert_eq!(ql.path, path);
    assert_eq!(ql.limit, limit);
    assert_eq!(ql.requests, requests);
    assert_eq!(ql.params, params.as_slice());
    assert_eq!(ql.after, after);
    assert_eq!(ql.count, count);
    assert_eq!(ql.show_all, show_all);
}
