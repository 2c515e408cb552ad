use sifis::decode::parse_json;
use sifis::error::ParseError;
use sifis::json::{Json, Numeric};

#[test]
fn numbers_are_integers_or_text() {
    match parse_json(r#"[0, -5, 18446744073709551615, 2.5]"#).unwrap() {
        Json::Array(items) => {
            assert!(matches!(items[0], Json::Number(Numeric::Integer(0))));
            assert!(matches!(items[1], Json::Number(Numeric::Integer(-5))));
            assert!(matches!(
                items[2],
                Json::Number(Numeric::Integer(18446744073709551615))
            ));
            assert!(matches!(&items[3], Json::Number(Numeric::Decimal(t)) if t == "2.5"));
        }
        _ => panic!("expected an array"),
    }
}

#[test]
fn scalars_and_members() {
    match parse_json(r#"{"a": null, "b": true, "c": "x"}"#).unwrap() {
        Json::Object(f) => {
            assert_eq!(f.len(), 3);
            assert!(matches!(f[0].1, Json::Null));
            assert!(matches!(f[1].1, Json::Bool(true)));
            assert!(matches!(&f[2].1, Json::Str(s) if s == "x"));
        }
        _ => panic!("expected an object"),
    }
}

#[test]
fn not_json_is_syntax_error() {
    assert_eq!(parse_json("{").unwrap_err(), ParseError::Syntax);
    assert_eq!(parse_json("").unwrap_err(), ParseError::Syntax);
}

#[test]
fn nesting_limit() {
    let deep = format!("{}{}", "[".repeat(100), "]".repeat(100));
    assert!(parse_json(&deep).is_ok());
}
