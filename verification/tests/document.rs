use osm_api::apis::{capabilities_path, format_available, versions_path, Format, FormatSupport};
use osm_api::document::{decode_node, decode_osm, decode_tags, decode_way, parse_element_type};
use osm_api::elements::{Api, ApiVersion, ElementType, NodeRef, Tag};
use osm_api::error::{Error, FieldName};
use osm_api::scalar::{is_decimal, parse_bool, parse_i64, parse_u8};
use osm_api::value::{Number, Value};

fn text(s: &str) -> Value {
    Value::Text(s.to_string())
}

fn mapping(entries: Vec<(&str, Value)>) -> Value {
    Value::Mapping(entries.into_iter().map(|(k, v)| (k.to_string(), v)).collect())
}

fn attribute_entries() -> Vec<(&'static str, Value)> {
    vec![
        ("@user", text("mapper")),
        ("@uid", text("12")),
        ("@timestamp", text("2020-01-01T00:00:00Z")),
        ("@visible", text("true")),
        ("@version", text("3")),
        ("@changeset", text("4000")),
    ]
}

#[test]
fn parse_i64_values() {
    assert_eq!(parse_i64("300"), Some(300));
    assert_eq!(parse_i64("-42"), Some(-42));
    assert_eq!(parse_i64("0"), Some(0));
    assert_eq!(parse_i64("9223372036854775807"), Some(i64::MAX));
    assert_eq!(parse_i64("-9223372036854775808"), Some(i64::MIN));
    assert_eq!(parse_i64("9223372036854775808"), None);
    assert_eq!(parse_i64("-9223372036854775809"), None);
    assert_eq!(parse_i64(""), None);
    assert_eq!(parse_i64("-"), None);
    assert_eq!(parse_i64("12a"), None);
    assert_eq!(parse_i64("1.5"), None);
}

#[test]
fn parse_u8_values() {
    assert_eq!(parse_u8("255"), Some(255));
    assert_eq!(parse_u8("0"), Some(0));
    assert_eq!(parse_u8("256"), None);
    assert_eq!(parse_u8("-1"), None);
    assert_eq!(parse_u8(""), None);
}

#[test]
fn parse_bool_values() {
    assert_eq!(parse_bool("true"), Some(true));
    assert_eq!(parse_bool("false"), Some(false));
    assert_eq!(parse_bool("True"), None);
    assert_eq!(parse_bool("1"), None);
}

#[test]
fn decimal_numerals() {
    assert!(is_decimal("0.25"));
    assert!(is_decimal("-0.25"));
    assert!(is_decimal("25"));
    assert!(is_decimal("-25"));
    assert!(!is_decimal("2.5.1"));
    assert!(!is_decimal("."));
    assert!(!is_decimal("1."));
    assert!(!is_decimal(".5"));
    assert!(!is_decimal(""));
    assert!(!is_decimal("1e-5"));
}

#[test]
fn tag_list_single_object_collapse() {
    let single = mapping(vec![("@k", text("name")), ("@v", text("square"))]);
    let tags = decode_tags(&single).unwrap();
    assert_eq!(
        tags,
        vec![Tag { key: "name".to_string(), value: "square".to_string() }]
    );
}

#[test]
fn tag_missing_value_fails() {
    let single = mapping(vec![("@k", text("name"))]);
    assert_eq!(
        decode_tags(&single),
        Err(Error::MissingRequiredField(FieldName::TagValue))
    );
}

#[test]
fn node_decodes_with_string_coerced_attributes() {
    let mut entries = attribute_entries();
    entries.push(("@id", text("17")));
    entries.push(("@lat", text("51.5")));
    entries.push(("@lon", text("-3")));
    entries.push((
        "tag",
        Value::Sequence(vec![
            mapping(vec![("@k", text("amenity")), ("@v", text("bench"))]),
            mapping(vec![("@k", text("backrest")), ("@v", text("yes"))]),
        ]),
    ));
    let node = decode_node(&mapping(entries)).unwrap();
    assert_eq!(node.id, 17);
    assert_eq!(node.lat, Number::Dec("51.5".to_string()));
    assert_eq!(node.lon, Number::Int(-3));
    assert_eq!(node.tags.len(), 2);
    assert_eq!(node.tags[1].key, "backrest");
    assert_eq!(node.attributes.uid, 12);
    assert_eq!(node.attributes.visible, true);
    assert_eq!(node.attributes.version, 3);
    assert_eq!(node.attributes.changeset, 4000);
    assert_eq!(node.attributes.user, "mapper");
}

#[test]
fn node_missing_attribute_fails() {
    let entries = vec![
        ("@id", text("17")),
        ("@lat", text("51.5")),
        ("@lon", text("-3")),
    ];
    assert_eq!(
        decode_node(&mapping(entries)),
        Err(Error::MissingRequiredField(FieldName::UserAttr))
    );
}

#[test]
fn way_single_node_ref_collapse() {
    let mut entries = attribute_entries();
    entries.push(("@id", Value::Int(7)));
    entries.push(("nd", mapping(vec![("@ref", text("17"))])));
    let way = decode_way(&mapping(entries)).unwrap();
    assert_eq!(way.id, 7);
    assert_eq!(way.nodes, vec![NodeRef { reference: 17 }]);
    assert_eq!(way.tags, vec![]);
}

#[test]
fn element_type_tokens() {
    assert_eq!(parse_element_type("node"), Some(ElementType::Node));
    assert_eq!(parse_element_type("way"), Some(ElementType::Way));
    assert_eq!(parse_element_type("relation"), Some(ElementType::Relation));
    assert_eq!(parse_element_type("area"), None);
}

#[test]
fn osm_document_attribute_encoding() {
    let doc = mapping(vec![
        ("@version", text("0.6")),
        ("@generator", text("OpenStreetMap server")),
        ("@copyright", text("OpenStreetMap and contributors")),
        ("@license", text("http://opendatacommons.org/licenses/odbl/1-0/")),
        ("@attribution", text("http://www.openstreetmap.org/copyright")),
        (
            "api",
            mapping(vec![
                (
                    "version",
                    mapping(vec![("@minimum", text("0.6")), ("@maximum", text("0.6"))]),
                ),
                ("area", mapping(vec![("@maximum", text("0.25"))])),
                ("timeout", mapping(vec![("@seconds", text("300"))])),
                (
                    "status",
                    mapping(vec![
                        ("@database", text("online")),
                        ("@api", text("online")),
                        ("@gpx", text("online")),
                    ]),
                ),
            ]),
        ),
    ]);
    let osm = decode_osm(&doc).unwrap();
    assert_eq!(osm.version, "0.6");
    assert_eq!(osm.generator, "OpenStreetMap server");
    assert_eq!(osm.error, None);
    assert_eq!(osm.node, vec![]);
    let api = osm.api.unwrap();
    assert_eq!(
        api.version,
        ApiVersion::VersionRange("0.6".to_string(), "0.6".to_string())
    );
    assert_eq!(api.max_areas, Some(Number::Dec("0.25".to_string())));
    assert_eq!(api.timeout, Some(300));
}

#[test]
fn osm_document_flat_encoding() {
    let doc = mapping(vec![
        ("version", text("0.6")),
        ("generator", text("OpenStreetMap server")),
        ("copyright", text("OpenStreetMap and contributors")),
        ("license", text("http://opendatacommons.org/licenses/odbl/1-0/")),
        ("attribution", text("http://www.openstreetmap.org/copyright")),
        (
            "api",
            mapping(vec![("versions", Value::Sequence(vec![text("0.6")]))]),
        ),
    ]);
    let osm = decode_osm(&doc).unwrap();
    let api = osm.api.unwrap();
    assert_eq!(api.version, ApiVersion::Versions(vec!["0.6".to_string()]));
    assert_eq!(api.status, None);
}

#[test]
fn osm_document_missing_generator_fails() {
    let doc = mapping(vec![("version", text("0.6"))]);
    assert_eq!(
        decode_osm(&doc),
        Err(Error::MissingRequiredField(FieldName::Generator))
    );
}

#[test]
fn osm_document_root_must_be_mapping() {
    assert_eq!(decode_osm(&text("osm")), Err(Error::DecodeFailure));
}

#[test]
fn api_default_is_empty() {
    let api = Api::default();
    assert_eq!(api.version, ApiVersion::Unknown);
    assert_eq!(api.max_areas, None);
    assert_eq!(api.status, None);
}

#[test]
fn endpoint_paths() {
    assert_eq!(versions_path(Format::XML), "/api/versions");
    assert_eq!(versions_path(Format::JSON), "/api/versions.json");
    assert_eq!(capabilities_path(Format::XML), "/api/capabilities");
    assert_eq!(capabilities_path(Format::JSON), "/api/capabilities.json");
}

#[test]
fn format_availability_flag() {
    assert!(format_available(FormatSupport::XmlOnly, Format::XML));
    assert!(!format_available(FormatSupport::XmlOnly, Format::JSON));
    assert!(format_available(FormatSupport::XmlAndJson, Format::XML));
    assert!(format_available(FormatSupport::XmlAndJson, Format::JSON));
}

#[test]
fn error_messages() {
    assert_eq!(Error::Transport.message(), "transport failure");
    assert_eq!(Error::HttpStatus(404).message(), "unexpected HTTP status");
    assert_eq!(
        Error::InvalidVersionShape.message(),
        "unrecognized shape of the version field"
    );
}
