use esclient::actions::{
    BulkRequest, CountRequest, DeleteRequest, ExistsRequest, GetRequest, IndexRequest,
    UpdateRequest,
};
use esclient::bulk::{BulkAction, BulkActionMetadata, BulkPayload};
use esclient::http::Method;
use esclient::types::{Consistency, OpType, StringList, Timeout, VersionType};

fn pairs(v: &[(&str, &str)]) -> Vec<(String, String)> {
    v.iter()
        .map(|(n, s)| (n.to_string(), s.to_string()))
        .collect()
}

#[test]
fn index_request_defaults_serialize_op_type_create() {
    let r = IndexRequest::new("i".to_string(), "t".to_string(), None, "{}".to_string());
    let req = r.to_http_request();
    assert_eq!(req.query, pairs(&[("op_type", "create")]));
}

#[test]
fn index_request_op_type_can_be_overridden() {
    let r = IndexRequest::new("i".to_string(), "t".to_string(), None, "{}".to_string())
        .op_type(OpType::Index);
    let req = r.to_http_request();
    assert_eq!(req.query, pairs(&[("op_type", "index")]));
}

#[test]
fn index_request_path_without_id_has_two_segments() {
    let r = IndexRequest::new("i".to_string(), "t".to_string(), None, "{}".to_string());
    assert_eq!(r.get_path(), vec!["i".to_string(), "t".to_string()]);
}

#[test]
fn index_request_path_with_id_has_three_segments() {
    let r = IndexRequest::new(
        "i".to_string(),
        "t".to_string(),
        Some("x".to_string()),
        "{}".to_string(),
    );
    assert_eq!(
        r.get_path(),
        vec!["i".to_string(), "t".to_string(), "x".to_string()]
    );
}

#[test]
fn count_request_paths() {
    assert_eq!(
        CountRequest::new(None, None).get_path(),
        vec!["_count".to_string()]
    );
    assert_eq!(
        CountRequest::new(Some("a".to_string()), None).get_path(),
        vec!["a".to_string(), "_count".to_string()]
    );
    assert_eq!(
        CountRequest::new(Some("a".to_string()), Some("b".to_string())).get_path(),
        vec!["a".to_string(), "b".to_string(), "_count".to_string()]
    );
    assert_eq!(
        CountRequest::new(None, Some("b".to_string())).get_path(),
        vec!["b".to_string(), "_count".to_string()]
    );
}

#[test]
fn query_pairs_keep_declaration_order_not_setter_order() {
    // version is set before routing, but the emitted order follows the
    // declaration order: op_type, routing, version.
    let r = IndexRequest::new("i".to_string(), "t".to_string(), None, "{}".to_string())
        .version(7)
        .routing("shard1".to_string());
    let req = r.to_http_request();
    assert_eq!(
        req.query,
        pairs(&[("op_type", "create"), ("routing", "shard1"), ("version", "7")])
    );
}

#[test]
fn unset_fields_are_omitted_entirely() {
    let r = GetRequest::new("i".to_string(), "t".to_string(), "d".to_string())
        .realtime(false)
        .version(-2)
        .version_type(VersionType::External);
    let req = r.to_http_request();
    assert_eq!(
        req.query,
        pairs(&[
            ("realtime", "false"),
            ("version", "-2"),
            ("version_type", "external"),
        ])
    );
}

#[test]
fn update_request_full_query_order() {
    let r = UpdateRequest::new(
        "i".to_string(),
        "t".to_string(),
        "d".to_string(),
        "{\"doc\":{}}".to_string(),
    )
    .version_type(VersionType::Internal)
    .consistency(Consistency::Quorum)
    .retry_on_conflict(3)
    .fields(StringList(vec!["a".to_string(), "b".to_string()]))
    .scripted_upsert(true)
    .timeout(Timeout::parse_from_str("30s").unwrap());
    let req = r.to_http_request();
    assert_eq!(req.method, Method::Post);
    assert_eq!(
        req.path,
        vec!["i".to_string(), "t".to_string(), "d".to_string()]
    );
    assert_eq!(
        req.query,
        pairs(&[
            ("consistency", "quorum"),
            ("fields", "a,b"),
            ("retry_on_conflict", "3"),
            ("scripted_upsert", "true"),
            ("timeout", "30000"),
            ("version_type", "internal"),
        ])
    );
    assert_eq!(req.body, Some("{\"doc\":{}}".to_string()));
}

#[test]
fn get_request_carries_no_body() {
    let r = GetRequest::new("i".to_string(), "t".to_string(), "d".to_string());
    let req = r.to_http_request();
    assert_eq!(req.method, Method::Get);
    assert_eq!(req.body, None);
}

#[test]
fn exists_request_is_head_without_body() {
    let r = ExistsRequest::new("i".to_string(), "t".to_string(), "d".to_string());
    let req = r.to_http_request();
    assert_eq!(req.method, Method::Head);
    assert_eq!(
        req.path,
        vec!["i".to_string(), "t".to_string(), "d".to_string()]
    );
    assert_eq!(req.body, None);
}

#[test]
fn delete_request_is_delete_without_body() {
    let r = DeleteRequest::new("i".to_string(), "t".to_string(), "d".to_string())
        .consistency(Consistency::All);
    let req = r.to_http_request();
    assert_eq!(req.method, Method::Delete);
    assert_eq!(req.query, pairs(&[("consistency", "all")]));
    assert_eq!(req.body, None);
}

#[test]
fn derivation_is_referentially_transparent() {
    let r = IndexRequest::new(
        "i".to_string(),
        "t".to_string(),
        Some("x".to_string()),
        "{\"a\":1}".to_string(),
    )
    .routing("r".to_string())
    .refresh(true);
    let first = r.to_http_request();
    let second = r.to_http_request();
    assert_eq!(first, second);
}

#[test]
fn query_string_is_absent_without_parameters() {
    let r = DeleteRequest::new("i".to_string(), "t".to_string(), "d".to_string());
    let req = r.to_http_request();
    assert_eq!(req.query_string(), None);
}

#[test]
fn query_string_percent_encodes_pairs() {
    let r = GetRequest::new("i".to_string(), "t".to_string(), "d".to_string())
        .preference("a b".to_string())
        .routing("c&d=e".to_string());
    let req = r.to_http_request();
    assert_eq!(
        req.query_string(),
        Some("preference=a+b&routing=c%26d%3De".to_string())
    );
}

#[test]
fn bulk_request_targets_bulk_path_with_rendered_payload() {
    let payload = BulkPayload {
        actions: vec![BulkAction::Index(
            BulkActionMetadata {
                _index: "i".to_string(),
                _type: "t".to_string(),
                _id: None,
                _routing: None,
                _parent: None,
                _timestamp: None,
                _ttl: None,
                op_type: None,
                _version: None,
                _version_type: None,
                _retry_on_conflict: None,
            },
            "{\"f\":1}".to_string(),
        )],
    };
    let expected_body = payload.to_string();
    let r = BulkRequest::new(payload)
        .consistency(Consistency::One)
        .typ("t".to_string())
        .refresh(true);
    let req = r.get().to_http_request();
    assert_eq!(req.method, Method::Post);
    assert_eq!(req.path, vec!["_bulk".to_string()]);
    assert_eq!(
        req.query,
        pairs(&[("consistency", "one"), ("type", "t"), ("refresh", "true")])
    );
    assert_eq!(req.body, Some(expected_body));
}

#[test]
fn timestamp_ttl_and_min_score_render_as_plain_values() {
    let r = IndexRequest::new("i".to_string(), "t".to_string(), None, "{}".to_string())
        .timestamp("2015-06-01T12:00:00Z".to_string())
        .ttl(86400000);
    let req = r.to_http_request();
    assert_eq!(
        req.query,
        pairs(&[
            ("op_type", "create"),
            ("timestamp", "2015-06-01T12:00:00Z"),
            ("ttl", "86400000"),
        ])
    );
    let c = CountRequest::new(Some("a".to_string()), None).min_score("1.5".to_string());
    let creq = c.to_http_request();
    assert_eq!(creq.query, pairs(&[("min_score", "1.5")]));
}
