//! Which operation of a GraphQL document a request runs, and what its kind
//! means for the response cache: only queries are cached, and a mutation
//! clears the cache unless its root holds fields only and every one of them
//! said it changes nothing that a query can see.

use vstd::prelude::*;
use vstd::string::*;
use async_graphql::parser::parse_query;
use async_graphql::parser::types::{OperationType, Selection};
use crate::text::str_eq;

verus! {

/// The kind of a GraphQL operation.
#[derive(Clone, Copy, Debug, PartialEq, Eq, Structural)]
pub enum OperationKind {
    Query,
    Mutation,
    Subscription,
}

/// What stands at the root of an operation's selection set: a field, or a
/// fragment (spread or inline), whose fields are only known once the fragment
/// is expanded.
#[derive(Clone, Copy, Debug, PartialEq, Eq, Structural)]
pub enum RootSelection {
    Field,
    Fragment,
}

/// One operation of a parsed document: its name (none for a document's single
/// anonymous operation), its kind, and what stands at its root, in order.
pub struct OperationSummary {
    pub name: Option<String>,
    pub kind: OperationKind,
    pub root_selections: Vec<RootSelection>,
}

/// An operation as plain values: name, kind, root selections.
pub type OperationEntry = (Option<Seq<char>>, OperationKind, Seq<RootSelection>);

/// The operation a request runs, as the cache decisions need it: its kind, how
/// many fields and how many fragments stand at its root.
#[derive(Clone, Copy, Debug, PartialEq, Eq, Structural)]
pub struct SelectedOperation {
    pub kind: OperationKind,
    pub root_fields: usize,
    pub root_fragments: usize,
}

/// The number of fields among `s`.
pub open spec fn field_count(s: Seq<RootSelection>) -> nat
    decreases s.len(),
{
    if s.len() == 0 {
        0
    } else {
        field_count(s.drop_last()) + if s.last() == RootSelection::Field {
            1nat
        } else {
            0nat
        }
    }
}

/// An operation of kind `kind` whose root is `s`, summarised.
pub open spec fn selected_summary(kind: OperationKind, s: Seq<RootSelection>) -> SelectedOperation {
    SelectedOperation {
        kind,
        root_fields: field_count(s) as usize,
        root_fragments: (s.len() - field_count(s)) as usize,
    }
}

pub open spec fn optional_text(s: Option<&str>) -> Option<Seq<char>> {
    match s {
        Some(t) => Some(t@),
        None => None,
    }
}

pub open spec fn summary_view(o: OperationSummary) -> OperationEntry {
    (
        match o.name {
            Some(n) => Some(n@),
            None => None,
        },
        o.kind,
        o.root_selections@,
    )
}

pub open spec fn summaries_view(ops: Seq<OperationSummary>) -> Seq<OperationEntry> {
    ops.map_values(|o: OperationSummary| summary_view(o))
}

/// No two operations share a name (nor are two of them anonymous).
pub open spec fn names_distinct(ops: Seq<OperationEntry>) -> bool {
    forall|i: int, j: int|
        #![trigger ops[i], ops[j]]
        0 <= i < ops.len() && 0 <= j < ops.len() && i != j ==> ops[i].0 != ops[j].0
}

/// What `async_graphql::parser::parse_query` finds in `query`: `None` when it
/// refuses the text, else the operations of the document, each with its name,
/// kind and the kinds of the selections at its root.
pub uninterp spec fn graphql_operations(query: Seq<char>) -> Option<Set<OperationEntry>>;

/// `async_graphql::parser::parse_query`, with each operation of the parsed
/// document (`DocumentOperations::iter`) summarised by its name, kind and, for
/// each item of its root selection set, whether it is a field or a fragment
/// (`Selection::FragmentSpread`, `Selection::InlineFragment`). The parser keeps named operations in a
/// map keyed by name and admits an anonymous operation only alone, so names
/// are distinct; the order of the summaries is the map's and is not stated.
#[verifier::external_body]
fn parse_operations(query: &str) -> (r: Option<Vec<OperationSummary>>)
    ensures
        match r {
            None => graphql_operations(query@) is None,
            Some(ops) => graphql_operations(query@) == Some(summaries_view(ops@).to_set())
                && names_distinct(summaries_view(ops@)),
        },
{
    parse_query(query).ok().map(|doc| doc.operations.iter().map(|(name, op)| OperationSummary {
        name: name.map(|n| n.to_string()),
        kind: match op.node.ty {
            OperationType::Query => OperationKind::Query,
            OperationType::Mutation => OperationKind::Mutation,
            OperationType::Subscription => OperationKind::Subscription,
        },
        root_selections: op.node.selection_set.node.items.iter().map(|s| match &s.node {
            Selection::Field(_) => RootSelection::Field,
            Selection::FragmentSpread(_) => RootSelection::Fragment,
            Selection::InlineFragment(_) => RootSelection::Fragment,
        }).collect(),
    }).collect())
}

pub open spec fn has_operation(ops: Set<OperationEntry>, name: Option<Seq<char>>) -> bool {
    exists|e: OperationEntry| ops.contains(e) && e.0 == name
}

pub open spec fn operation_named(ops: Set<OperationEntry>, name: Option<Seq<char>>) -> SelectedOperation {
    let e = choose|e: OperationEntry| ops.contains(e) && e.0 == name;
    selected_summary(e.1, e.2)
}

/// The operation a request runs: a document's anonymous operation whatever
/// name was asked for; otherwise the operation with the requested name, and
/// none when no name was given or no operation has it.
pub open spec fn selected_operation(ops: Set<OperationEntry>, name: Option<Seq<char>>) -> Option<
    SelectedOperation,
> {
    if has_operation(ops, None) {
        Some(operation_named(ops, None))
    } else {
        match name {
            Some(n) => if has_operation(ops, Some(n)) {
                Some(operation_named(ops, Some(n)))
            } else {
                None
            },
            None => None,
        }
    }
}

/// The operation of `query` that a request naming `name` runs, or none when
/// the text does not parse.
pub open spec fn request_operation_spec(query: Seq<char>, name: Option<Seq<char>>) -> Option<
    SelectedOperation,
> {
    match graphql_operations(query) {
        Some(ops) => selected_operation(ops, name),
        None => None,
    }
}

proof fn lemma_entry_is_named(ops: Seq<OperationEntry>, i: int)
    requires
        names_distinct(ops),
        0 <= i < ops.len(),
    ensures
        has_operation(ops.to_set(), ops[i].0),
        operation_named(ops.to_set(), ops[i].0) == selected_summary(ops[i].1, ops[i].2),
{
    assert(ops.to_set().contains(ops[i]));
    let e = choose|e: OperationEntry| ops.to_set().contains(e) && e.0 == ops[i].0;
    assert(ops.contains(e));
    let j = choose|j: int| 0 <= j < ops.len() && ops[j] == e;
    assert(ops[j].0 == ops[i].0);
}

proof fn lemma_name_absent(ops: Seq<OperationEntry>, name: Option<Seq<char>>)
    requires
        forall|j: int| 0 <= j < ops.len() ==> (#[trigger] ops[j]).0 != name,
    ensures
        !has_operation(ops.to_set(), name),
{
    if has_operation(ops.to_set(), name) {
        let e = choose|e: OperationEntry| ops.to_set().contains(e) && e.0 == name;
        assert(ops.contains(e));
        let j = choose|j: int| 0 <= j < ops.len() && ops[j] == e;
        assert(ops[j].0 != name);
    }
}

/// Counts the fields and fragments at the root of an operation of kind `kind`.
pub fn summarize_operation(kind: OperationKind, root: &Vec<RootSelection>) -> (r: SelectedOperation)
    ensures
        r == selected_summary(kind, root@),
{
    let mut fields: usize = 0;
    let mut fragments: usize = 0;
    let mut i: usize = 0;
    while i < root.len()
        invariant
            i <= root.len(),
            fields == field_count(root@.take(i as int)),
            fields + fragments == i,
        decreases root.len() - i,
    {
        assert(root@.take(i + 1).drop_last() =~= root@.take(i as int));
        match root[i] {
            RootSelection::Field => fields = fields + 1,
            RootSelection::Fragment => fragments = fragments + 1,
        }
        i = i + 1;
    }
    assert(root@.take(i as int) =~= root@);
    SelectedOperation { kind, root_fields: fields, root_fragments: fragments }
}

/// Picks the operation a request runs from the summaries of its document,
/// following [`selected_operation`].
pub fn select_operation(ops: &Vec<OperationSummary>, operation_name: Option<&str>) -> (r: Option<
    SelectedOperation,
>)
    requires
        names_distinct(summaries_view(ops@)),
    ensures
        r == selected_operation(summaries_view(ops@).to_set(), optional_text(operation_name)),
{
    let ghost view = summaries_view(ops@);
    let mut i: usize = 0;
    while i < ops.len()
        invariant
            i <= ops.len(),
            view == summaries_view(ops@),
            names_distinct(view),
            forall|j: int| 0 <= j < i ==> (#[trigger] view[j]).0 != None::<Seq<char>>,
        decreases ops.len() - i,
    {
        if ops[i].name.is_none() {
            proof {
                lemma_entry_is_named(view, i as int);
            }
            return Some(summarize_operation(ops[i].kind, &ops[i].root_selections));
        }
        i = i + 1;
    }
    proof {
        lemma_name_absent(view, None);
    }
    match operation_name {
        None => None,
        Some(wanted) => {
            let mut k: usize = 0;
            while k < ops.len()
                invariant
                    k <= ops.len(),
                    view == summaries_view(ops@),
                    names_distinct(view),
                    !has_operation(view.to_set(), None),
                    optional_text(operation_name) == Some(wanted@),
                    forall|j: int| 0 <= j < k ==> (#[trigger] view[j]).0 != Some(wanted@),
                decreases ops.len() - k,
            {
                let found = match &ops[k].name {
                    Some(n) => str_eq(n.as_str(), wanted),
                    None => false,
                };
                if found {
                    proof {
                        assert(view[k as int] == summary_view(ops@[k as int]));
                        assert(view[k as int].0 == Some(wanted@));
                        lemma_entry_is_named(view, k as int);
                    }
                    return Some(summarize_operation(ops[k].kind, &ops[k].root_selections));
                }
                k = k + 1;
            }
            proof {
                lemma_name_absent(view, Some(wanted@));
            }
            None
        }
    }
}

/// The kind and the root field and fragment counts of the operation that a
/// request with this query text and operation name runs; none when the text does not parse,
/// names several operations and the request picks none of them, or picks one
/// that is not there.
pub fn graphql_request_operation(query: &str, operation_name: Option<&str>) -> (r: Option<
    SelectedOperation,
>)
    ensures
        r == request_operation_spec(query@, optional_text(operation_name)),
{
    match parse_operations(query) {
        Some(ops) => select_operation(&ops, operation_name),
        None => None,
    }
}

/// The kind of the operation that a request with this query text and
/// operation name runs.
pub fn graphql_request_operation_type(query: &str, operation_name: Option<&str>) -> (r: Option<
    OperationKind,
>)
    ensures
        r == match request_operation_spec(query@, optional_text(operation_name)) {
            Some(o) => Some(o.kind),
            None => None::<OperationKind>,
        },
{
    match graphql_request_operation(query, operation_name) {
        Some(o) => Some(o.kind),
        None => None,
    }
}

/// Whether the response to an operation of this kind may be served from, and
/// stored in, the response cache: only queries are.
pub fn operation_is_cacheable(kind: Option<OperationKind>) -> (r: bool)
    ensures
        r == (kind == Some(OperationKind::Query)),
{
    match kind {
        Some(OperationKind::Query) => true,
        _ => false,
    }
}

/// Whether running an operation clears the response cache: a mutation does,
/// unless its root holds at least one field and no fragment, and every root
/// field resolved was marked as leaving query-visible state unchanged
/// (`marked_fields` counts the marks; each resolved root field marks at most
/// once). A fragment at the root may expand to any number of unmarked fields,
/// so it always clears the cache.
pub fn operation_invalidates_cache(operation: Option<SelectedOperation>, marked_fields: usize) -> (r:
    bool)
    ensures
        r == match operation {
            Some(o) => o.kind == OperationKind::Mutation && !(o.root_fragments == 0 && o.root_fields
                > 0 && marked_fields >= o.root_fields),
            None => false,
        },
{
    match operation {
        Some(o) => match o.kind {
            OperationKind::Mutation => o.root_fragments > 0 || o.root_fields == 0 || marked_fields
                < o.root_fields,
            _ => false,
        },
        None => false,
    }
}

} // verus!
