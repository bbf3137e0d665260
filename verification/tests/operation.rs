use memory_map::operation::{
    graphql_request_operation, graphql_request_operation_type, operation_invalidates_cache,
    operation_is_cacheable, select_operation, summarize_operation, OperationKind, OperationSummary,
    RootSelection, SelectedOperation,
};

const READ_AND_WRITE: &str = "query Read { config { enableRegistration } } mutation Write { logout }";

fn summary(name: Option<&str>, kind: OperationKind, root: Vec<RootSelection>) -> OperationSummary {
    OperationSummary { name: name.map(str::to_string), kind, root_selections: root }
}

fn selected(kind: OperationKind, root_fields: usize, root_fragments: usize) -> SelectedOperation {
    SelectedOperation { kind, root_fields, root_fragments }
}

#[test]
fn graphql_operation_type_uses_selected_named_operation() {
    assert_eq!(
        graphql_request_operation_type(READ_AND_WRITE, Some("Read")),
        Some(OperationKind::Query)
    );
    assert_eq!(
        graphql_request_operation_type(READ_AND_WRITE, Some("Write")),
        Some(OperationKind::Mutation)
    );
}

#[test]
fn graphql_operation_type_skips_ambiguous_multi_operation_documents() {
    assert_eq!(graphql_request_operation_type(READ_AND_WRITE, None), None);
}

#[test]
fn anonymous_operation_runs_whatever_name_is_asked_for() {
    let query = "{ config { enableRegistration } objects { id } }";
    assert_eq!(graphql_request_operation(query, None), Some(selected(OperationKind::Query, 2, 0)));
    assert_eq!(
        graphql_request_operation(query, Some("Other")),
        Some(selected(OperationKind::Query, 2, 0))
    );
    assert_eq!(
        graphql_request_operation("mutation { logout }", None),
        Some(selected(OperationKind::Mutation, 1, 0))
    );
}

#[test]
fn root_fragments_are_counted_apart_from_fields() {
    let inline = "mutation { ... on Mutation { presignObjectUploadParts deleteS3Objects } }";
    assert_eq!(graphql_request_operation(inline, None), Some(selected(OperationKind::Mutation, 0, 1)));
    let spread = "mutation M { logout ...Rest } fragment Rest on Mutation { deleteS3Objects }";
    assert_eq!(
        graphql_request_operation(spread, Some("M")),
        Some(selected(OperationKind::Mutation, 1, 1))
    );
}

#[test]
fn unknown_names_and_unparsable_text_select_nothing() {
    assert_eq!(graphql_request_operation(READ_AND_WRITE, Some("Delete")), None);
    assert_eq!(graphql_request_operation("query {", None), None);
    assert_eq!(graphql_request_operation("", Some("Read")), None);
    assert_eq!(
        graphql_request_operation(READ_AND_WRITE, Some("Write")),
        Some(selected(OperationKind::Mutation, 1, 0))
    );
}

#[test]
fn selection_from_summaries_follows_names() {
    let named = vec![
        summary(Some("Write"), OperationKind::Mutation, vec![RootSelection::Field, RootSelection::Fragment, RootSelection::Field]),
        summary(Some("Read"), OperationKind::Query, vec![RootSelection::Field]),
    ];
    assert_eq!(select_operation(&named, Some("Read")), Some(selected(OperationKind::Query, 1, 0)));
    assert_eq!(select_operation(&named, Some("Write")), Some(selected(OperationKind::Mutation, 2, 1)));
    assert_eq!(select_operation(&named, Some("write")), None);
    assert_eq!(select_operation(&named, None), None);
    let anonymous = vec![summary(None, OperationKind::Subscription, vec![RootSelection::Field])];
    assert_eq!(
        select_operation(&anonymous, Some("Read")),
        Some(selected(OperationKind::Subscription, 1, 0))
    );
    assert_eq!(select_operation(&Vec::new(), Some("Read")), None);
}

#[test]
fn root_counts_split_fields_and_fragments() {
    assert_eq!(
        summarize_operation(OperationKind::Mutation, &vec![
            RootSelection::Fragment,
            RootSelection::Field,
            RootSelection::Fragment,
            RootSelection::Field,
            RootSelection::Field,
        ]),
        selected(OperationKind::Mutation, 3, 2)
    );
    assert_eq!(summarize_operation(OperationKind::Query, &vec![]), selected(OperationKind::Query, 0, 0));
}

#[test]
fn only_queries_are_cacheable() {
    assert!(operation_is_cacheable(Some(OperationKind::Query)));
    assert!(!operation_is_cacheable(Some(OperationKind::Mutation)));
    assert!(!operation_is_cacheable(Some(OperationKind::Subscription)));
    assert!(!operation_is_cacheable(None));
}

#[test]
fn mutation_spares_cache_only_when_every_root_field_is_marked() {
    let mutation = |fields, fragments| Some(selected(OperationKind::Mutation, fields, fragments));
    assert!(operation_invalidates_cache(mutation(1, 0), 0));
    assert!(!operation_invalidates_cache(mutation(1, 0), 1));
    assert!(operation_invalidates_cache(mutation(2, 0), 1));
    assert!(!operation_invalidates_cache(mutation(2, 0), 2));
    assert!(operation_invalidates_cache(mutation(0, 0), 0));
    assert!(!operation_invalidates_cache(Some(selected(OperationKind::Query, 1, 0)), 0));
    assert!(!operation_invalidates_cache(None, 0));
}

#[test]
fn a_fragment_at_the_root_always_clears_the_cache() {
    let mutation = |fields, fragments| Some(selected(OperationKind::Mutation, fields, fragments));
    assert!(operation_invalidates_cache(mutation(0, 1), 1));
    assert!(operation_invalidates_cache(mutation(0, 1), 5));
    assert!(operation_invalidates_cache(mutation(1, 1), 2));
}
