use esclient::bulk::{BulkAction, BulkActionMetadata, BulkPayload};
use esclient::types::{OpType, VersionType};

fn meta(index: &str, typ: &str, id: Option<&str>) -> BulkActionMetadata {
    BulkActionMetadata {
        _index: index.to_string(),
        _type: typ.to_string(),
        _id: id.map(|s| s.to_string()),
        _routing: None,
        _parent: None,
        _timestamp: None,
        _ttl: None,
        op_type: None,
        _version: None,
        _version_type: None,
        _retry_on_conflict: None,
    }
}

#[test]
fn empty_payload_serializes_to_empty_string() {
    let p = BulkPayload { actions: vec![] };
    assert_eq!(p.to_string(), "");
}

#[test]
fn single_update_action_serializes_two_lines() {
    let p = BulkPayload {
        actions: vec![BulkAction::Update(
            meta("a", "b", Some("c")),
            "{\"doc\":{}}".to_string(),
        )],
    };
    assert_eq!(
        p.to_string(),
        "{\"_index\":\"a\",\"_type\":\"b\",\"_id\":\"c\"}\n{\"doc\":{}}\n"
    );
}

#[test]
fn delete_action_still_emits_its_payload_line() {
    // A payload line is emitted for every variant, Delete included.
    let p = BulkPayload {
        actions: vec![BulkAction::Delete(meta("i", "t", Some("1")), "{}".to_string())],
    };
    assert_eq!(
        p.to_string(),
        "{\"_index\":\"i\",\"_type\":\"t\",\"_id\":\"1\"}\n{}\n"
    );
}

#[test]
fn actions_keep_submission_order() {
    let p = BulkPayload {
        actions: vec![
            BulkAction::Index(meta("x", "y", None), "{\"n\":1}".to_string()),
            BulkAction::Delete(meta("x", "y", Some("2")), "{}".to_string()),
        ],
    };
    assert_eq!(
        p.to_string(),
        "{\"_index\":\"x\",\"_type\":\"y\"}\n{\"n\":1}\n{\"_index\":\"x\",\"_type\":\"y\",\"_id\":\"2\"}\n{}\n"
    );
}

#[test]
fn metadata_omits_unset_fields_and_keeps_order() {
    let mut m = meta("idx", "typ", None);
    m._routing = Some("r".to_string());
    m.op_type = Some(OpType::Create);
    m._version = Some(-3);
    m._version_type = Some(VersionType::ExternalGte);
    m._retry_on_conflict = Some(true);
    assert_eq!(
        m.to_json(),
        "{\"_index\":\"idx\",\"_type\":\"typ\",\"_routing\":\"r\",\"op_type\":\"create\",\"_version\":-3,\"_version_type\":\"external_gte\",\"_retry_on_conflict\":true}"
    );
}

#[test]
fn metadata_with_every_field_set() {
    let m = BulkActionMetadata {
        _index: "i".to_string(),
        _type: "t".to_string(),
        _id: Some("d".to_string()),
        _routing: Some("ro".to_string()),
        _parent: Some("pa".to_string()),
        _timestamp: Some("2015-01-01T00:00:00Z".to_string()),
        _ttl: Some("86400000".to_string()),
        op_type: Some(OpType::Index),
        _version: Some(12),
        _version_type: Some(VersionType::Force),
        _retry_on_conflict: Some(false),
    };
    assert_eq!(
        m.to_json(),
        "{\"_index\":\"i\",\"_type\":\"t\",\"_id\":\"d\",\"_routing\":\"ro\",\"_parent\":\"pa\",\"_timestamp\":\"2015-01-01T00:00:00Z\",\"_ttl\":\"86400000\",\"op_type\":\"index\",\"_version\":12,\"_version_type\":\"force\",\"_retry_on_conflict\":false}"
    );
}

#[test]
fn metadata_escapes_string_values() {
    let m = meta("a\"b", "t\\u", Some("line\nbreak\ttab"));
    assert_eq!(
        m.to_json(),
        "{\"_index\":\"a\\\"b\",\"_type\":\"t\\\\u\",\"_id\":\"line\\nbreak\\ttab\"}"
    );
}

#[test]
fn metadata_escapes_control_characters() {
    let m = meta("a\u{1}b", "t", None);
    assert_eq!(m.to_json(), "{\"_index\":\"a\\u0001b\",\"_type\":\"t\"}");
}

#[test]
fn bulk_action_to_string_matches_payload_concatenation() {
    let a = BulkAction::Index(meta("i", "t", None), "{\"f\":2}".to_string());
    assert_eq!(a.to_string(), "{\"_index\":\"i\",\"_type\":\"t\"}\n{\"f\":2}\n");
}
