use esclient::bulk::{BulkAction, BulkActionMetadata, BulkPayload};
use esclient::types::{
    Consistency, ExpandWildcards, OpType, ParseTimeoutError, QueryParam, StringList, Timeout,
    VersionType,
};

#[test]
fn test() {
    let a = BulkPayload {
        actions: vec![BulkAction::Update(
            BulkActionMetadata {
                _index: "_index".to_string(),
                _type: "_type".to_string(),
                _id: Some("_id".to_string()),
                _routing: Some("_routing".to_string()),
                _parent: Default::default(),
                _timestamp: Default::default(),
                _ttl: Default::default(),
                op_type: Default::default(),
                _version: Default::default(),
                _version_type: Default::default(),
                _retry_on_conflict: Default::default(),
            },
            "{...}".to_string(),
        )],
    };
    println!("{}", a.to_string());
}

#[test]
fn timeout_parses_seconds() {
    assert_eq!(Timeout::parse_from_str("10s"), Ok(Timeout(10000)));
}

#[test]
fn timeout_parses_bare_digits_as_millis() {
    assert_eq!(Timeout::parse_from_str("5"), Ok(Timeout(5)));
}

#[test]
fn timeout_parses_capital_hours() {
    assert_eq!(Timeout::parse_from_str("2H"), Ok(Timeout(7200000)));
}

#[test]
fn timeout_rejects_bogus() {
    assert_eq!(
        Timeout::parse_from_str("bogus"),
        Err(ParseTimeoutError::Invalid)
    );
}

#[test]
fn timeout_parses_all_units() {
    assert_eq!(Timeout::parse_from_str("7ms"), Ok(Timeout(7)));
    assert_eq!(Timeout::parse_from_str("3m"), Ok(Timeout(180000)));
    assert_eq!(Timeout::parse_from_str("4h"), Ok(Timeout(14400000)));
    assert_eq!(Timeout::parse_from_str("2d"), Ok(Timeout(172800000)));
    assert_eq!(Timeout::parse_from_str("1w"), Ok(Timeout(604800000)));
    assert_eq!(Timeout::parse_from_str("0w"), Ok(Timeout(0)));
}

#[test]
fn timeout_rejects_malformed_literals() {
    assert_eq!(Timeout::parse_from_str(""), Err(ParseTimeoutError::Invalid));
    assert_eq!(Timeout::parse_from_str("ms"), Err(ParseTimeoutError::Invalid));
    assert_eq!(Timeout::parse_from_str("10x"), Err(ParseTimeoutError::Invalid));
    assert_eq!(Timeout::parse_from_str("10sm"), Err(ParseTimeoutError::Invalid));
    assert_eq!(Timeout::parse_from_str("10 s"), Err(ParseTimeoutError::Invalid));
    assert_eq!(Timeout::parse_from_str("-5s"), Err(ParseTimeoutError::Invalid));
    assert_eq!(Timeout::parse_from_str("5.5s"), Err(ParseTimeoutError::Invalid));
}

#[test]
fn timeout_rejects_overflowing_values() {
    // The digits alone overflow 64 bits.
    assert_eq!(
        Timeout::parse_from_str("99999999999999999999"),
        Err(ParseTimeoutError::Invalid)
    );
    // The digits fit but the week multiplier pushes the value over.
    assert_eq!(
        Timeout::parse_from_str("99999999999999w"),
        Err(ParseTimeoutError::Invalid)
    );
}

#[test]
fn timeout_round_trip_is_value_preserving() {
    // "1m" parses to sixty thousand milliseconds and re-serializes
    // unit-less: the unit is not recoverable, only the value.
    let t = Timeout::parse_from_str("1m").unwrap();
    assert_eq!(t.to_string(), "60000");
}

#[test]
fn timeout_from_str_trait_parses() {
    let t: Timeout = "7s".parse().unwrap();
    assert_eq!(t, Timeout(7000));
    let e: Result<Timeout, ParseTimeoutError> = "nope".parse();
    assert_eq!(e, Err(ParseTimeoutError::Invalid));
}

#[test]
fn parse_timeout_error_description() {
    assert_eq!(ParseTimeoutError::Invalid.description(), "invalid format");
}

#[test]
fn expand_wildcards_wire_forms() {
    assert_eq!(ExpandWildcards::Open.to_string(), "open");
    assert_eq!(ExpandWildcards::Closed.to_string(), "closed");
    assert_eq!(ExpandWildcards::NoWildcards.to_string(), "none");
    assert_eq!(ExpandWildcards::All.to_string(), "all");
}

#[test]
fn consistency_wire_forms() {
    assert_eq!(Consistency::One.to_string(), "one");
    assert_eq!(Consistency::Quorum.to_string(), "quorum");
    assert_eq!(Consistency::All.to_string(), "all");
}

#[test]
fn op_type_wire_forms() {
    assert_eq!(OpType::Index.to_string(), "index");
    assert_eq!(OpType::Create.to_string(), "create");
}

#[test]
fn version_type_wire_forms() {
    assert_eq!(VersionType::Internal.to_string(), "internal");
    assert_eq!(VersionType::External.to_string(), "external");
    assert_eq!(VersionType::ExternalGte.to_string(), "external_gte");
    assert_eq!(VersionType::Force.to_string(), "force");
}

#[test]
fn string_list_joins_with_commas() {
    assert_eq!(StringList(vec![]).to_string(), "");
    assert_eq!(StringList(vec!["a".to_string()]).to_string(), "a");
    assert_eq!(
        StringList(vec!["a".to_string(), "b".to_string(), "c".to_string()]).to_string(),
        "a,b,c"
    );
}

#[test]
fn query_param_names_and_values() {
    assert_eq!(Consistency::Quorum.get_name(), "consistency");
    assert_eq!(Consistency::Quorum.get_value(), "quorum");
    assert_eq!(OpType::Create.get_name(), "op_type");
    assert_eq!(OpType::Create.get_value(), "create");
    assert_eq!(VersionType::ExternalGte.get_name(), "version_type");
    assert_eq!(VersionType::ExternalGte.get_value(), "external_gte");
    assert_eq!(ExpandWildcards::Open.get_name(), "expand_wildcards");
    assert_eq!(ExpandWildcards::Open.get_value(), "open");
    assert_eq!(Timeout(1500).get_name(), "timeout");
    assert_eq!(Timeout(1500).get_value(), "1500");
}
