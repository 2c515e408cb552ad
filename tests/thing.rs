use sifis::decode::parse_json;
use sifis::error::ParseError;
use sifis::json::{Json, Numeric};
use sifis::thing::{classify_schema, parse_schema, SchemaKind, SchemaType, Thing};

fn parse(text: &str) -> Thing {
    Thing::from_text(text).unwrap()
}

#[test]
fn wot_example1() {
    let ex1 = r#"
        {
            "@context": "https://www.w3.org/2019/wot/td/v1",
            "id": "urn:dev:ops:32473-WoTLamp-1234",
            "title": "MyLampThing",
            "securityDefinitions": {
                "basic_sc": {"scheme": "basic", "in":"header"}
            },
            "security": ["basic_sc"],
            "properties": {
                "status" : {
                    "type": "string",
                    "forms": [{"href": "https://mylamp.example.com/status"}]
                }
            },
            "actions": {
                "toggle" : {
                    "forms": [{"href": "https://mylamp.example.com/toggle"}]
                }
            },
            "events":{
                "overheating":{
                    "data": {"type": "string"},
                    "forms": [{
                        "href": "https://mylamp.example.com/oh",
                        "subprotocol": "longpoll"
                    }]
                }
            }
        }"#;

    let td: Thing = Thing::from_text(ex1).unwrap();

    println!("{:?}", td);
}

#[test]
fn wot_example1_no_events() {
    let ex1 = r#"
        {
            "@context": "https://www.w3.org/2019/wot/td/v1",
            "id": "urn:dev:ops:32473-WoTLamp-1234",
            "title": "MyLampThing",
            "securityDefinitions": {
                "basic_sc": {"scheme": "basic", "in":"header"}
            },
            "security": ["basic_sc"],
            "properties": {
                "status" : {
                    "type": "string",
                    "forms": [{"href": "https://mylamp.example.com/status"}]
                }
            },
            "actions": {
                "toggle" : {
                    "forms": [{"href": "https://mylamp.example.com/toggle"}]
                }
            }
        }"#;

    let td: Thing = Thing::from_text(ex1).unwrap();

    println!("{:?}", td);
}

#[test]
fn wot_example2() {
    let ex2 = r#"
        {
            "@context": [
                "http://www.w3.org/ns/td",
                { "saref": "https://w3id.org/saref#" }
            ],
            "id": "urn:dev:ops:32473-WoTLamp-1234",
            "title": "MyLampThing",
            "@type": "saref:LightSwitch",
            "securityDefinitions": {
                "basic_sc": {"scheme": "basic", "in": "header"}
            },
            "security": "basic_sc",
            "properties": {
                "status": {
                    "@type": "saref:OnOffState",
                    "type": "string",
                    "forms": [{
                        "href": "https://mylamp.example.com/status"
                    }]
                }
            },
            "actions": {
                "toggle": {
                    "@type": "saref:ToggleCommand",
                    "forms": [{
                        "href": "https://mylamp.example.com/toggle"
                    }]
                }
            },
            "events": {
                "overheating": {
                    "data": {"type": "string"},
                    "forms": [{
                        "href": "https://mylamp.example.com/oh"
                    }]
                }
            }
        }"#;

    let td: Thing = Thing::from_text(ex2).unwrap();

    println!("{:?}", td);
}

#[test]
fn wot_example4() {
    let ex4 = r#"
        {
            "@context": "http://www.w3.org/ns/td",
            "id": "urn:dev:ops:32473-WoTLamp-1234",
            "title": "MyLampThing",
            "securityDefinitions": {
                "basic_sc": {
                    "scheme": "basic",
                    "in": "header"
                }
            },
            "security": "basic_sc",
            "properties": {
                "status": {
                    "type": "string",
                    "readOnly": false,
                    "writeOnly": false,
                    "forms": [{
                        "op": [
                            "readproperty",
                            "writeproperty"
                        ],
                        "href": "https://mylamp.example.com/status",
                        "contentType": "application/json"
                    }]
                }
            },
            "actions": {
                "toggle": {
                    "safe": false,
                    "idempotent": false,
                    "forms": [{
                        "op": "invokeaction",
                        "href": "https://mylamp.example.com/toggle",
                        "contentType": "application/json"
                    }]
                }
            },
            "events": {
                "overheating": {
                    "data": {
                        "type": "string",
                        "readOnly": false,
                        "writeOnly": false
                    },
                    "forms": [{
                        "op": "subscribeevent",
                        "href": "https://mylamp.example.com/oh",
                        "contentType": "application/json",
                        "subprotocol": "longpoll"
                    }]
                }
            }
        }"#;

    let td: Thing = Thing::from_text(ex4).unwrap();

    println!("{:?}", td);
}

#[test]
fn status_property_scenario() {
    let td = parse(
        r#"{
            "@context": "https://www.w3.org/2019/wot/td/v1",
            "title": "Lamp",
            "securityDefinitions": {},
            "properties": {"status": {"type": "string", "forms": [{"href": "http://x/status"}]}}
        }"#,
    );
    assert_eq!(td.properties.len(), 1);
    assert_eq!(td.properties[0].0, "status");
    assert_eq!(td.actions.len(), 0);
    assert_eq!(td.events.len(), 0);
    let status = &td.properties[0].1;
    assert!(matches!(status.schema, SchemaType::ObjectSchema(_)));
    assert_eq!(status.affordance.forms.len(), 1);
    assert_eq!(status.affordance.forms[0].href, "http://x/status");
    assert_eq!(status.affordance.forms[0].content_type, "application/json");
    match &status.schema {
        SchemaType::ObjectSchema(o) => {
            assert_eq!(o.data_schema.data_type.as_deref(), Some("string"));
            assert!(o.properties.is_none());
        }
        SchemaType::IntegerSchema(_) => panic!("expected an object schema"),
    }
}

#[test]
fn one_or_many_scalar_is_one_item() {
    let td = parse(
        r#"{"@context": "c", "title": "T", "securityDefinitions": {},
            "@type": "saref:LightSwitch", "security": "basic_sc"}"#,
    );
    assert_eq!(td.attype, vec!["saref:LightSwitch".to_string()]);
    assert_eq!(td.security, vec!["basic_sc".to_string()]);
}

#[test]
fn one_or_many_array_keeps_order_and_duplicates() {
    let td = parse(
        r#"{"@context": "c", "title": "T", "securityDefinitions": {},
            "@type": ["C", "A", "B", "A"]}"#,
    );
    assert_eq!(td.attype, vec!["C", "A", "B", "A"]);
    assert!(td.security.is_empty());
}

#[test]
fn one_or_many_object_is_rejected() {
    let r = Thing::from_text(
        r#"{"@context": "c", "title": "T", "securityDefinitions": {}, "@type": {"a": "b"}}"#,
    );
    assert_eq!(r.unwrap_err(), ParseError::Field("@type".to_string()));
}

#[test]
fn absent_members_default_to_empty() {
    let td = parse(r#"{"@context": "c", "title": "T", "securityDefinitions": {}}"#);
    assert!(td.properties.is_empty());
    assert!(td.actions.is_empty());
    assert!(td.events.is_empty());
    assert!(td.links.is_empty());
    assert!(td.forms.is_empty());
    assert!(td.security.is_empty());
    assert!(td.attype.is_empty());
    assert_eq!(td.id, "");
    assert_eq!(td.description, "");
    assert_eq!(td.base, "");
}

#[test]
fn schema_with_minimum_is_integer_schema() {
    let j = parse_json(r#"{"type": "integer", "minimum": 0, "maximum": 100}"#).unwrap();
    let s = parse_schema(&j, 8).unwrap();
    match s {
        SchemaType::IntegerSchema(i) => {
            assert_eq!(i.minimum, Some(0));
            assert_eq!(i.maximum, Some(100));
        }
        SchemaType::ObjectSchema(_) => panic!("expected an integer schema"),
    }
}

#[test]
fn schema_without_minimum_is_object_schema_even_if_integer() {
    let j = parse_json(r#"{"type": "integer", "maximum": 100}"#).unwrap();
    assert!(matches!(parse_schema(&j, 8).unwrap(), SchemaType::ObjectSchema(_)));
    if let Json::Object(fields) = &j {
        assert_eq!(classify_schema(fields), SchemaKind::Object);
    } else {
        panic!("expected an object");
    }
    let k = parse_json(r#"{"minimum": 3}"#).unwrap();
    if let Json::Object(fields) = &k {
        assert_eq!(classify_schema(fields), SchemaKind::Integer);
    }
}

#[test]
fn nested_object_schema_properties() {
    let j = parse_json(
        r#"{"type": "object", "required": ["a"],
            "properties": {"a": {"minimum": 1}, "b": {"type": "string"}},
            "oneOf": [{"minimum": 2}, {"type": "null"}]}"#,
    )
    .unwrap();
    match parse_schema(&j, 8).unwrap() {
        SchemaType::ObjectSchema(o) => {
            let props = o.properties.unwrap();
            assert_eq!(props.len(), 2);
            assert_eq!(props[0].0, "a");
            assert!(matches!(props[0].1, SchemaType::IntegerSchema(_)));
            assert!(matches!(props[1].1, SchemaType::ObjectSchema(_)));
            assert_eq!(o.required, Some(vec!["a".to_string()]));
            let alts = o.data_schema.one_of.unwrap();
            assert!(matches!(alts[0], SchemaType::IntegerSchema(_)));
            assert!(matches!(alts[1], SchemaType::ObjectSchema(_)));
        }
        SchemaType::IntegerSchema(_) => panic!("expected an object schema"),
    }
}

#[test]
fn schema_nesting_beyond_budget_is_too_deep() {
    let j = parse_json(r#"{"properties": {"a": {"properties": {"b": {}}}}}"#).unwrap();
    assert!(parse_schema(&j, 3).is_ok());
    assert_eq!(parse_schema(&j, 2).unwrap_err(), ParseError::TooDeep);
}

#[test]
fn schema_that_is_not_an_object_is_rejected() {
    let j = parse_json(r#"[1, 2]"#).unwrap();
    assert!(parse_schema(&j, 8).is_err());
}

#[test]
fn form_content_type_kept_when_given() {
    let td = parse(
        r#"{"@context": "c", "title": "T", "securityDefinitions": {},
            "forms": [{"href": "h", "contentType": "text/plain", "contentCoding": "gzip"}]}"#,
    );
    assert_eq!(td.forms[0].content_type, "text/plain");
    assert_eq!(td.forms[0].content_coding.as_deref(), Some("gzip"));
}

#[test]
fn missing_title_is_rejected() {
    let r = Thing::from_text(r#"{"@context": "c", "securityDefinitions": {}}"#);
    assert_eq!(r.unwrap_err(), ParseError::Field("title".to_string()));
}

#[test]
fn missing_context_is_rejected() {
    let r = Thing::from_text(r#"{"title": "T", "securityDefinitions": {}}"#);
    assert_eq!(r.unwrap_err(), ParseError::Field("@context".to_string()));
}

#[test]
fn text_that_is_not_json_is_a_syntax_error() {
    assert_eq!(Thing::from_text("{ not json").unwrap_err(), ParseError::Syntax);
}

#[test]
fn action_flags_default_to_false() {
    let td = parse(
        r#"{"@context": "c", "title": "T", "securityDefinitions": {},
            "actions": {"a": {}, "b": {"safe": true, "idempotent": true, "input": {"minimum": 1}}}}"#,
    );
    assert!(!td.actions[0].1.safe);
    assert!(!td.actions[0].1.idempotent);
    assert!(td.actions[1].1.safe);
    assert!(td.actions[1].1.idempotent);
    assert!(matches!(td.actions[1].1.input, Some(SchemaType::IntegerSchema(_))));
}

#[test]
fn security_definitions_are_string_maps() {
    let td = parse(
        r#"{"@context": "c", "title": "T",
            "securityDefinitions": {"basic_sc": {"scheme": "basic", "in": "header"}}}"#,
    );
    assert_eq!(td.security_definitions[0].0, "basic_sc");
    let scheme = &td.security_definitions[0].1.scheme;
    assert!(scheme.contains(&("scheme".to_string(), "basic".to_string())));
    assert!(scheme.contains(&("in".to_string(), "header".to_string())));
}

#[test]
fn schema_hazard_keeps_out_of_range_score() {
    let td = parse(
        r#"{"@context": "c", "title": "T", "securityDefinitions": {},
            "properties": {"p": {"hazards": {"@id": "h", "name": "FireHazard",
                                              "description": "d", "riskScore": -1}}}}"#,
    );
    match &td.properties[0].1.schema {
        SchemaType::ObjectSchema(o) => {
            let h = o.data_schema.hazards.as_ref().unwrap();
            assert_eq!(h.risk_score, Some(-1));
            assert!(!h.has_valid_risk_score());
        }
        SchemaType::IntegerSchema(_) => panic!("expected an object schema"),
    }
}

#[test]
fn context_value_is_kept() {
    let td = parse(r#"{"@context": ["a", {"b": 1}], "title": "T", "securityDefinitions": {}}"#);
    match &td.context {
        Json::Array(items) => {
            assert_eq!(items.len(), 2);
            assert!(matches!(&items[0], Json::Str(s) if s == "a"));
            match &items[1] {
                Json::Object(f) => {
                    assert_eq!(f[0].0, "b");
                    assert!(matches!(f[0].1, Json::Number(Numeric::Integer(1))));
                }
                _ => panic!("expected an object"),
            }
        }
        _ => panic!("expected an array"),
    }
}

#[test]
fn duplicate_property_names_are_rejected() {
    let fields = vec![
        ("@context".to_string(), Json::Str("c".to_string())),
        ("title".to_string(), Json::Str("T".to_string())),
        ("securityDefinitions".to_string(), Json::Object(vec![])),
        (
            "properties".to_string(),
            Json::Object(vec![
                ("p".to_string(), Json::Object(vec![])),
                ("p".to_string(), Json::Object(vec![])),
            ]),
        ),
    ];
    let r = Thing::from_json(&Json::Object(fields));
    assert_eq!(r.unwrap_err(), ParseError::Field("properties".to_string()));
}

#[test]
fn default_content_type_is_json() {
    assert_eq!(sifis::thing::default_content_type(), "application/json");
}

#[test]
fn nested_schema_is_classified_by_its_own_keys() {
    let j = parse_json(r#"{"properties": {"x": {"minimum": 0}}}"#).unwrap();
    match parse_schema(&j, 8).unwrap() {
        SchemaType::ObjectSchema(o) => {
            let props = o.properties.unwrap();
            assert_eq!(props[0].0, "x");
            match &props[0].1 {
                SchemaType::IntegerSchema(i) => assert_eq!(i.minimum, Some(0)),
                SchemaType::ObjectSchema(_) => panic!("expected an integer schema"),
            }
        }
        SchemaType::IntegerSchema(_) => panic!("expected an object schema"),
    }
}

#[test]
fn security_scheme_pairs_of_lamp() {
    let td = parse(
        r#"{"@context": "https://www.w3.org/2019/wot/td/v1",
            "id": "urn:dev:ops:32473-WoTLamp-1234", "title": "MyLampThing",
            "securityDefinitions": {"basic_sc": {"scheme": "basic", "in": "header"}},
            "security": ["basic_sc"]}"#,
    );
    assert_eq!(td.title, "MyLampThing");
    assert_eq!(td.id, "urn:dev:ops:32473-WoTLamp-1234");
    assert_eq!(td.security, vec!["basic_sc"]);
    assert_eq!(td.security_definitions.len(), 1);
    let mut pairs = td.security_definitions[0].1.scheme.clone();
    pairs.sort();
    assert_eq!(
        pairs,
        vec![
            ("in".to_string(), "header".to_string()),
            ("scheme".to_string(), "basic".to_string())
        ]
    );
}

#[test]
fn const_and_enum_values_are_kept() {
    let j = parse_json(r#"{"const": {"a": [1, "b"]}, "enum": [true, null, 3]}"#).unwrap();
    match parse_schema(&j, 8).unwrap() {
        SchemaType::ObjectSchema(o) => {
            match o.data_schema.const_value.unwrap() {
                Json::Object(f) => {
                    assert_eq!(f[0].0, "a");
                    assert!(matches!(&f[0].1, Json::Array(items) if items.len() == 2));
                }
                _ => panic!("expected an object"),
            }
            let e = o.data_schema.enumeration.unwrap();
            assert!(matches!(e[0], Json::Bool(true)));
            assert!(matches!(e[1], Json::Null));
            assert!(matches!(e[2], Json::Number(Numeric::Integer(3))));
        }
        SchemaType::IntegerSchema(_) => panic!("expected an object schema"),
    }
}

#[test]
fn parsed_members_come_sorted_and_deduplicated() {
    match parse_json(r#"{"b": 1, "a": 2, "b": 3}"#).unwrap() {
        Json::Object(f) => {
            assert_eq!(f.len(), 2);
            assert_eq!(f[0].0, "a");
            assert_eq!(f[1].0, "b");
            assert!(matches!(f[1].1, Json::Number(Numeric::Integer(3))));
        }
        _ => panic!("expected an object"),
    }
}
