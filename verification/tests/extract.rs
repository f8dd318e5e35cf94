use aide_docs::extract::{
    collect_doc_comments, companion_fn_name, extract_route_docs, parse_args,
    split_summary_description, AideDocsAttributes, ArgError, HandlerAttr, MacroArg,
};
use aide_docs::operation::OperationDoc;
use aide_docs::text::trim_line;

fn doc(text: &str) -> HandlerAttr {
    HandlerAttr::DocComment(text.to_string())
}

fn arg(key: &str, value: Option<&str>) -> MacroArg {
    MacroArg { key: key.to_string(), value: value.map(|v| v.to_string()) }
}

#[test]
fn split_of_no_lines_is_empty() {
    let (summary, description) = split_summary_description(&vec![]);
    assert_eq!(summary, "");
    assert_eq!(description, "");
}

#[test]
fn split_of_one_line_has_empty_description() {
    let (summary, description) = split_summary_description(&vec!["Only line.".to_string()]);
    assert_eq!(summary, "Only line.");
    assert_eq!(description, "");
}

#[test]
fn split_of_three_lines_joins_description() {
    let lines = vec!["First.".to_string(), "Second.".to_string(), "Third.".to_string()];
    let (summary, description) = split_summary_description(&lines);
    assert_eq!(summary, "First.");
    assert_eq!(description, "Second.\nThird.");
}

#[test]
fn trim_line_removes_surrounding_whitespace() {
    assert_eq!(trim_line("  a b\t"), "a b");
    assert_eq!(trim_line("\u{3000} x \u{00A0}"), "x");
    assert_eq!(trim_line("   "), "");
    assert_eq!(trim_line(""), "");
    assert_eq!(trim_line("no-space"), "no-space");
}

#[test]
fn collect_keeps_trimmed_doc_comments_in_order() {
    let attrs = vec![
        HandlerAttr::Other,
        doc("  First.  "),
        doc("   "),
        doc(""),
        doc("Second."),
        HandlerAttr::Other,
        doc("Third."),
    ];
    let lines = collect_doc_comments(&attrs);
    assert_eq!(lines, vec!["First.".to_string(), "Second.".to_string(), "Third.".to_string()]);
}

#[test]
fn parse_recognizes_tag_and_deprecated() {
    let parsed = parse_args(&vec![arg("tag", Some("Users")), arg("deprecated", None)]).unwrap();
    assert_eq!(parsed.tag, Some("Users".to_string()));
    assert!(parsed.deprecated);
}

#[test]
fn parse_rejects_unrecognized_key_naming_it() {
    let err = parse_args(&vec![arg("foo", None)]).unwrap_err();
    match err {
        ArgError::UnsupportedProperty { key } => assert_eq!(key, "foo"),
        _ => panic!("expected the unsupported key to be reported"),
    }
}

#[test]
fn parse_reports_first_error() {
    let err = parse_args(&vec![arg("foo", Some("x")), arg("tag", Some("Users"))]).unwrap_err();
    match err {
        ArgError::UnsupportedProperty { key } => assert_eq!(key, "foo"),
        _ => panic!("expected the unsupported key to be reported"),
    }
}

#[test]
fn parse_rejects_tag_without_value() {
    let err = parse_args(&vec![arg("tag", None)]).unwrap_err();
    assert!(matches!(err, ArgError::MissingTagValue));
}

#[test]
fn parse_rejects_deprecated_with_value() {
    let err = parse_args(&vec![arg("deprecated", Some("yes"))]).unwrap_err();
    assert!(matches!(err, ArgError::UnexpectedDeprecatedValue));
}

#[test]
fn parse_error_leaves_state_unchanged() {
    let mut state = AideDocsAttributes::new();
    let outcome = state.parse(&arg("bar", None));
    assert!(outcome.is_err());
    assert_eq!(state.tag, None);
    assert!(!state.deprecated);
}

#[test]
fn tag_argument_applies_tag_and_leaves_deprecated_unset() {
    let docs = extract_route_docs(&vec![doc("Summary.")], &vec![arg("tag", Some("Users"))])
        .unwrap();
    let mut op = OperationDoc::new();
    docs.apply(&mut op);
    assert_eq!(op.summary, Some("Summary.".to_string()));
    assert_eq!(op.tags, vec!["Users".to_string()]);
    assert!(!op.deprecated);
}

#[test]
fn deprecated_flag_sets_mark_and_applies_no_tag() {
    let docs = extract_route_docs(&vec![doc("Summary.")], &vec![arg("deprecated", None)])
        .unwrap();
    let mut op = OperationDoc::new();
    docs.apply(&mut op);
    assert!(op.deprecated);
    assert!(op.tags.is_empty());
}

#[test]
fn applying_an_already_present_tag_does_not_duplicate_it() {
    let docs = extract_route_docs(&vec![], &vec![arg("tag", Some("Users"))]).unwrap();
    let mut op = OperationDoc::new();
    docs.apply(&mut op);
    docs.apply(&mut op);
    assert_eq!(op.tags, vec!["Users".to_string()]);
}

#[test]
fn extraction_splits_doc_comments() {
    let attrs = vec![doc("Adds a user."), doc("Validates the name."), doc("Then stores it.")];
    let docs = extract_route_docs(&attrs, &vec![]).unwrap();
    assert_eq!(docs.summary, "Adds a user.");
    assert_eq!(docs.description, "Validates the name.\nThen stores it.");
    assert_eq!(docs.tag, None);
    assert!(!docs.deprecated);
}

#[test]
fn extraction_without_doc_comments_yields_empty_strings() {
    let docs = extract_route_docs(&vec![HandlerAttr::Other], &vec![]).unwrap();
    assert_eq!(docs.summary, "");
    assert_eq!(docs.description, "");
}

#[test]
fn tag_and_deprecated_combine() {
    let docs = extract_route_docs(
        &vec![doc("S.")],
        &vec![arg("tag", Some("Admin")), arg("deprecated", None)],
    )
    .unwrap();
    assert_eq!(docs.tag, Some("Admin".to_string()));
    assert!(docs.deprecated);
}

#[test]
fn split_then_rejoin_reproduces_the_lines() {
    let lines = vec!["A".to_string(), "B".to_string(), "C".to_string()];
    let (summary, description) = split_summary_description(&lines);
    let rejoined = format!("{}\n{}", summary, description);
    assert_eq!(rejoined, lines.join("\n"));
}

#[test]
fn companion_name_has_fixed_prefix() {
    assert_eq!(companion_fn_name("get_user"), "__aide_docs_get_user");
}
