use aide_docs::operation::{route_info, OperationDoc};
use aide_docs::router::{ApiRouter, Route, TagApiRouter};

fn plain_doc() -> OperationDoc {
    OperationDoc::new()
}

fn doc_with_tag(tag: &str) -> OperationDoc {
    OperationDoc {
        summary: None,
        description: None,
        tags: vec![tag.to_string()],
        deprecated: false,
    }
}

#[test]
fn added_routes_carry_the_fixed_tag_and_nested_ones_keep_theirs() {
    let sub = ApiRouter {
        routes: vec![Route { path: "/x".to_string(), doc: doc_with_tag("Other") }],
    };
    let tagged = TagApiRouter::new("Billing".to_string())
        .api_route("/a", plain_doc())
        .api_route("/b", plain_doc())
        .nest("/c", sub);
    let router = ApiRouter::from(tagged);
    assert_eq!(router.routes.len(), 3);
    assert_eq!(router.routes[0].path, "/a");
    assert_eq!(router.routes[0].doc.tags, vec!["Billing".to_string()]);
    assert_eq!(router.routes[1].path, "/b");
    assert_eq!(router.routes[1].doc.tags, vec!["Billing".to_string()]);
    assert_eq!(router.routes[2].path, "/c/x");
    assert_eq!(router.routes[2].doc.tags, vec!["Other".to_string()]);
}

#[test]
fn tag_stamping_keeps_existing_tags_and_fields() {
    let mut base = doc_with_tag("First");
    base.summary = Some("S.".to_string());
    let tagged = TagApiRouter::new("Second".to_string()).api_route("/p", base);
    let router = ApiRouter::from(tagged);
    assert_eq!(router.routes[0].doc.summary, Some("S.".to_string()));
    assert_eq!(
        router.routes[0].doc.tags,
        vec!["First".to_string(), "Second".to_string()]
    );
}

#[test]
fn tag_stamping_does_not_duplicate_an_existing_tag() {
    let tagged = TagApiRouter::new("Billing".to_string()).api_route("/p", doc_with_tag("Billing"));
    let router = ApiRouter::from(tagged);
    assert_eq!(router.routes[0].doc.tags, vec!["Billing".to_string()]);
}

#[test]
fn route_info_sets_only_summary_and_description() {
    let docs = route_info("List users", "Returns every user.");
    let mut op = OperationDoc::new();
    docs.apply(&mut op);
    assert_eq!(op.summary, Some("List users".to_string()));
    assert_eq!(op.description, Some("Returns every user.".to_string()));
    assert!(op.tags.is_empty());
    assert!(!op.deprecated);
}
