use sifis::abstraction::{find_of_type, select_of_type, Light, Oven, Percentage, Rgb};
use sifis::thing::Thing;

fn thing(id: &str, types: &str) -> Thing {
    let text = format!(
        r#"{{"@context": "c", "id": "{}", "title": "t", "@type": {}, "securityDefinitions": {{}}}}"#,
        id, types
    );
    Thing::from_text(&text).unwrap()
}

#[test]
fn percentage_is_capped_at_100() {
    assert_eq!(Percentage::new(0), Percentage(0));
    assert_eq!(Percentage::new(100), Percentage(100));
    assert_eq!(Percentage::new(150), Percentage(100));
    assert_eq!(Percentage::new(42), Percentage(42));
}

#[test]
fn rgb_keeps_components() {
    assert_eq!(Rgb::new(1, 2, 3), Rgb(1, 2, 3));
}

#[test]
fn select_keeps_things_of_type_in_order() {
    let things = vec![
        thing("a", r#"["Light", "OnOff"]"#),
        thing("b", r#""Oven""#),
        thing("c", r#""Light""#),
    ];
    let lights = select_of_type(things, "Light");
    let ids: Vec<&str> = lights.iter().map(|t| t.id.as_str()).collect();
    assert_eq!(ids, vec!["a", "c"]);
}

#[test]
fn find_by_type_and_id() {
    let things = vec![thing("a", r#""Light""#), thing("b", r#""Oven""#), thing("b", r#""Light""#)];
    let found = find_of_type(things, "Light", "b").unwrap();
    assert_eq!(found.id, "b");
    assert_eq!(found.attype, vec!["Light"]);
    let none = find_of_type(vec![thing("a", r#""Oven""#)], "Light", "a");
    assert!(none.is_none());
}

#[test]
fn light_and_oven_from_thing() {
    assert!(Light::from_thing(thing("a", r#""Light""#)).is_ok());
    let back = Light::from_thing(thing("b", r#""Oven""#)).unwrap_err();
    assert_eq!(back.id, "b");
    assert!(Oven::from_thing(thing("b", r#""Oven""#)).is_ok());
    assert!(Oven::from_thing(thing("c", r#"[]"#)).is_err());
}

#[test]
fn property_type_annotations() {
    let td = Thing::from_text(
        r#"{"@context": "c", "title": "t", "securityDefinitions": {},
            "properties": {"on": {"@type": "OnOff"}}}"#,
    )
    .unwrap();
    assert_eq!(td.properties[0].1.attype(), &["OnOff".to_string()]);
}

#[test]
fn property_of_type_finds_first_match() {
    let td = Thing::from_text(
        r#"{"@context": "c", "title": "t", "securityDefinitions": {},
            "properties": {"a": {"@type": "Brightness"}, "b": {"@type": "OnOff"},
                           "c": {"@type": "OnOff"}}}"#,
    )
    .unwrap();
    assert_eq!(td.property_of_type("OnOff"), Some(1));
    assert_eq!(td.property_of_type("Brightness"), Some(0));
    assert_eq!(td.property_of_type("Camera"), None);
}
