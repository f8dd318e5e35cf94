use aide_docs::params::{
    simple_cookie, simple_header, simple_parameter_data, CookieStyle, HeaderStyle, Parameter,
};
use aide_docs::response::BodySchema;

#[test]
fn parameter_data_carries_the_given_fields() {
    let data = simple_parameter_data("x-request-id".to_string(), "Correlates logs.".to_string(), true);
    assert_eq!(data.name, "x-request-id");
    assert_eq!(data.description, Some("Correlates logs.".to_string()));
    assert!(data.required);
    assert_eq!(data.deprecated, None);
    assert!(matches!(data.schema, BodySchema::PlainString));
}

#[test]
fn header_parameter_uses_simple_style() {
    let p = simple_header("x-token".to_string(), "Auth token.".to_string(), false);
    match p {
        Parameter::Header { parameter_data, style } => {
            assert_eq!(parameter_data.name, "x-token");
            assert!(!parameter_data.required);
            assert!(matches!(style, HeaderStyle::Simple));
        }
        _ => panic!("expected a header parameter"),
    }
}

#[test]
fn cookie_parameter_uses_form_style() {
    let p = simple_cookie("session".to_string(), "Session id.".to_string(), true);
    match p {
        Parameter::Cookie { parameter_data, style } => {
            assert_eq!(parameter_data.name, "session");
            assert!(parameter_data.required);
            assert!(matches!(style, CookieStyle::Form));
        }
        _ => panic!("expected a cookie parameter"),
    }
}
