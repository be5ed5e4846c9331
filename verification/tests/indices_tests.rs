use esclient::http::Method;
use esclient::indices::{CloseRequest, CreateRequest, ExistsRequest};
use esclient::types::{ExpandWildcards, StringList, Timeout};

fn pairs(v: &[(&str, &str)]) -> Vec<(String, String)> {
    v.iter()
        .map(|(n, s)| (n.to_string(), s.to_string()))
        .collect()
}

#[test]
fn indices_exists_joins_index_names_into_one_segment() {
    let r = ExistsRequest::new(StringList(vec![
        "a".to_string(),
        "b".to_string(),
        "c".to_string(),
    ]));
    let req = r.to_http_request();
    assert_eq!(req.method, Method::Head);
    assert_eq!(req.path, vec!["a,b,c".to_string()]);
    assert_eq!(req.body, None);
}

#[test]
fn indices_exists_query_order() {
    let r = ExistsRequest::new(StringList(vec!["a".to_string()]))
        .local(true)
        .expand_wildcards(ExpandWildcards::Closed)
        .ignore_unavailable(false);
    let req = r.to_http_request();
    assert_eq!(
        req.query,
        pairs(&[
            ("ignore_unavailable", "false"),
            ("expand_wildcards", "closed"),
            ("local", "true"),
        ])
    );
}

#[test]
fn indices_create_posts_to_index_segment_without_body() {
    let r = CreateRequest::new("logs".to_string())
        .timeout(Timeout::parse_from_str("1m").unwrap())
        .master_timeout(Timeout::parse_from_str("30s").unwrap());
    let req = r.to_http_request();
    assert_eq!(req.method, Method::Post);
    assert_eq!(req.path, vec!["logs".to_string()]);
    assert_eq!(
        req.query,
        pairs(&[("timeout", "60000"), ("master_timeout", "30000")])
    );
    assert_eq!(req.body, None);
}

#[test]
fn indices_close_posts_config_body() {
    let r = CloseRequest::new("logs".to_string(), "{\"settings\":{}}".to_string());
    let req = r.to_http_request();
    assert_eq!(req.method, Method::Post);
    assert_eq!(req.path, vec!["logs".to_string()]);
    assert_eq!(req.query, Vec::<(String, String)>::new());
    assert_eq!(req.body, Some("{\"settings\":{}}".to_string()));
}
