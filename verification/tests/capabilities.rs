use osm_api::apis::check_status;
use osm_api::decode::{decode_api, decode_query_limit, decode_status, decode_version, parse_status};
use osm_api::elements::{ApiStatus, ApiVersion, QueryLimit, Status};
use osm_api::error::{Error, FieldName};
use osm_api::value::{Number, Value};

fn text(s: &str) -> Value {
    Value::Text(s.to_string())
}

fn mapping(entries: Vec<(&str, Value)>) -> Value {
    Value::Mapping(entries.into_iter().map(|(k, v)| (k.to_string(), v)).collect())
}

#[test]
fn version_explicit_list() {
    let v = Value::Sequence(vec![text("0.6")]);
    assert_eq!(
        decode_version(&v),
        Ok(ApiVersion::Versions(vec!["0.6".to_string()]))
    );
}

#[test]
fn version_explicit_list_keeps_order() {
    let v = Value::Sequence(vec![text("0.5"), text("0.6"), text("0.7")]);
    assert_eq!(
        decode_version(&v),
        Ok(ApiVersion::Versions(vec![
            "0.5".to_string(),
            "0.6".to_string(),
            "0.7".to_string()
        ]))
    );
}

#[test]
fn version_range_maximum_first() {
    let v = mapping(vec![("minimum", text("0.6")), ("maximum", text("0.6"))]);
    assert_eq!(
        decode_version(&v),
        Ok(ApiVersion::VersionRange("0.6".to_string(), "0.6".to_string()))
    );
}

#[test]
fn version_range_order_independent_of_input() {
    let a = mapping(vec![("minimum", text("0.5")), ("maximum", text("0.7"))]);
    let b = mapping(vec![("maximum", text("0.7")), ("minimum", text("0.5"))]);
    let expected = Ok(ApiVersion::VersionRange("0.7".to_string(), "0.5".to_string()));
    assert_eq!(decode_version(&a), expected);
    assert_eq!(decode_version(&b), expected);
}

#[test]
fn version_range_attribute_prefixed_aliases() {
    let v = mapping(vec![("@maximum", text("0.6")), ("@minimum", text("0.4"))]);
    assert_eq!(
        decode_version(&v),
        Ok(ApiVersion::VersionRange("0.6".to_string(), "0.4".to_string()))
    );
}

#[test]
fn version_single_text_content() {
    let v = mapping(vec![("$text", text("0.6"))]);
    assert_eq!(
        decode_version(&v),
        Ok(ApiVersion::Versions(vec!["0.6".to_string()]))
    );
}

#[test]
fn version_scalar_is_invalid_shape() {
    assert_eq!(decode_version(&Value::Int(6)), Err(Error::InvalidVersionShape));
    assert_eq!(decode_version(&Value::Bool(true)), Err(Error::InvalidVersionShape));
    assert_eq!(decode_version(&text("0.6")), Err(Error::InvalidVersionShape));
}

#[test]
fn version_mapping_without_range_is_invalid_shape() {
    let v = mapping(vec![("maximum", text("0.6"))]);
    assert_eq!(decode_version(&v), Err(Error::InvalidVersionShape));
    let w = mapping(vec![("something", text("0.6"))]);
    assert_eq!(decode_version(&w), Err(Error::InvalidVersionShape));
}

#[test]
fn version_list_with_non_string_entry() {
    let v = Value::Sequence(vec![text("0.6"), Value::Int(7)]);
    assert_eq!(decode_version(&v), Err(Error::InvalidVersionEntry));
}

#[test]
fn version_range_with_non_string_bound() {
    let v = mapping(vec![("maximum", Value::Int(6)), ("minimum", text("0.4"))]);
    assert_eq!(decode_version(&v), Err(Error::InvalidVersionEntry));
}

#[test]
fn api_versions_key_scenario() {
    let doc = mapping(vec![("versions", Value::Sequence(vec![text("0.6")]))]);
    let api = decode_api(&doc).unwrap();
    assert_eq!(api.version, ApiVersion::Versions(vec!["0.6".to_string()]));
}

#[test]
fn api_version_absent_is_unknown() {
    let doc = mapping(vec![]);
    let api = decode_api(&doc).unwrap();
    assert_eq!(api.version, ApiVersion::Unknown);
}

#[test]
fn area_limit_fractional() {
    let doc = mapping(vec![(
        "area",
        mapping(vec![("maximum", Value::Num("0.25".to_string()))]),
    )]);
    let api = decode_api(&doc).unwrap();
    assert_eq!(api.max_areas, Some(Number::Dec("0.25".to_string())));
    match api.max_areas {
        Some(Number::Dec(s)) => assert_eq!(s.parse::<f64>().unwrap(), 0.25),
        _ => panic!("area limit lost"),
    }
}

#[test]
fn area_limit_string_encoded() {
    let doc = mapping(vec![("area", mapping(vec![("@maximum", text("0.25"))]))]);
    let api = decode_api(&doc).unwrap();
    assert_eq!(api.max_areas, Some(Number::Dec("0.25".to_string())));
}

#[test]
fn area_limit_malformed_is_shape_mismatch() {
    let doc = mapping(vec![("area", mapping(vec![("maximum", text("wide"))]))]);
    assert_eq!(decode_api(&doc), Err(Error::ShapeMismatch(FieldName::AreaMax)));
}

#[test]
fn empty_wrapper_means_no_ceiling() {
    let doc = mapping(vec![("area", mapping(vec![])), ("waynodes", mapping(vec![]))]);
    let api = decode_api(&doc).unwrap();
    assert_eq!(api.max_areas, None);
    assert_eq!(api.max_way_nodes, None);
}

#[test]
fn timeout_seconds_scenario() {
    let doc = mapping(vec![("timeout", mapping(vec![("seconds", Value::Int(300))]))]);
    let api = decode_api(&doc).unwrap();
    assert_eq!(api.timeout, Some(300));
}

#[test]
fn timeout_seconds_string_coerced() {
    let doc = mapping(vec![("timeout", mapping(vec![("@seconds", text("300"))]))]);
    let api = decode_api(&doc).unwrap();
    assert_eq!(api.timeout, Some(300));
}

#[test]
fn integer_limits_decode() {
    let doc = mapping(vec![
        ("note_area", mapping(vec![("maximum", Value::Int(25))])),
        ("tracepoints", mapping(vec![("per_page", Value::Int(5000))])),
        ("waynodes", mapping(vec![("maximum", Value::Int(2000))])),
        ("relationmembers", mapping(vec![("@maximum", text("32000"))])),
    ]);
    let api = decode_api(&doc).unwrap();
    assert_eq!(api.max_note_areas, Some(25));
    assert_eq!(api.trackpoints_per_page, Some(5000));
    assert_eq!(api.max_way_nodes, Some(2000));
    assert_eq!(api.max_relation_members, Some(32000));
}

#[test]
fn query_limit_alias_equivalence() {
    let bare = mapping(vec![
        ("default_query_limit", Value::Int(100)),
        ("maximum_query_limit", Value::Int(500)),
    ]);
    let prefixed = mapping(vec![
        ("@default_query_limit", Value::Int(100)),
        ("@maximum_query_limit", Value::Int(500)),
    ]);
    let a = decode_query_limit(&bare, FieldName::ChangesetsLimit).unwrap();
    let b = decode_query_limit(&prefixed, FieldName::ChangesetsLimit).unwrap();
    assert_eq!(a, b);
    assert_eq!(
        a,
        QueryLimit { default: 100, max: 500, max_elements: None }
    );
}

#[test]
fn query_limit_through_api_decoder() {
    let doc = mapping(vec![(
        "changesets",
        mapping(vec![
            ("default_query_limit", Value::Int(100)),
            ("maximum_query_limit", Value::Int(500)),
            ("maximum_elements", Value::Int(10000)),
        ]),
    )]);
    let api = decode_api(&doc).unwrap();
    assert_eq!(
        api.changesets,
        Some(QueryLimit { default: 100, max: 500, max_elements: Some(10000) })
    );
    assert_eq!(api.notes, None);
}

#[test]
fn query_limit_missing_default_fails() {
    let doc = mapping(vec![(
        "notes",
        mapping(vec![("maximum_query_limit", Value::Int(500))]),
    )]);
    assert_eq!(
        decode_api(&doc),
        Err(Error::MissingRequiredField(FieldName::DefaultQueryLimit))
    );
}

#[test]
fn query_limit_missing_max_fails() {
    let doc = mapping(vec![(
        "changesets",
        mapping(vec![("default_query_limit", Value::Int(100))]),
    )]);
    assert_eq!(
        decode_api(&doc),
        Err(Error::MissingRequiredField(FieldName::MaximumQueryLimit))
    );
}

#[test]
fn status_aliases_and_distinct_values() {
    assert_eq!(parse_status("readonly"), Some(Status::ReadOnly));
    assert_eq!(parse_status("read_only"), Some(Status::ReadOnly));
    assert_eq!(parse_status("online"), Some(Status::Online));
    assert_eq!(parse_status("offline"), Some(Status::Offline));
    assert_ne!(parse_status("online"), parse_status("readonly"));
    assert_ne!(parse_status("online"), parse_status("offline"));
    assert_ne!(parse_status("readonly"), parse_status("offline"));
    assert_eq!(parse_status("busy"), None);
}

#[test]
fn status_triple_scenario() {
    let st = mapping(vec![
        ("database", text("online")),
        ("api", text("readonly")),
        ("gpx", text("offline")),
    ]);
    assert_eq!(
        decode_status(&st),
        Ok(ApiStatus {
            database: Status::Online,
            api: Status::ReadOnly,
            gpx: Status::Offline,
        })
    );
}

#[test]
fn status_partial_triple_fails() {
    let st = mapping(vec![("database", text("online")), ("api", text("online"))]);
    assert_eq!(decode_status(&st), Err(Error::IncompleteStatusTriple));
    let empty = mapping(vec![]);
    assert_eq!(decode_status(&empty), Err(Error::IncompleteStatusTriple));
}

#[test]
fn status_bad_token_is_shape_mismatch() {
    let st = mapping(vec![
        ("database", text("online")),
        ("api", text("busy")),
        ("gpx", text("offline")),
    ]);
    assert_eq!(decode_status(&st), Err(Error::ShapeMismatch(FieldName::StatusApi)));
}

#[test]
fn missing_optionals_decode_to_none() {
    let doc = mapping(vec![("versions", Value::Sequence(vec![text("0.6")]))]);
    let api = decode_api(&doc).unwrap();
    assert_eq!(api.max_areas, None);
    assert_eq!(api.timeout, None);
    assert_eq!(api.status, None);
    assert_eq!(api.max_note_areas, None);
    assert_eq!(api.trackpoints_per_page, None);
    assert_eq!(api.max_way_nodes, None);
    assert_eq!(api.max_relation_members, None);
    assert_eq!(api.changesets, None);
    assert_eq!(api.notes, None);
}

#[test]
fn http_not_found_scenario() {
    assert_eq!(check_status(404), Err(Error::HttpStatus(404)));
}

#[test]
fn http_ok_and_other_statuses() {
    assert_eq!(check_status(200), Ok(()));
    assert_eq!(check_status(500), Err(Error::HttpStatus(500)));
    assert_eq!(check_status(302), Err(Error::HttpStatus(302)));
}
