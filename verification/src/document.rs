//! Trusted boundary to the GraphQL parser's document and variable types.
//!
//! A parsed document is opaque to verification; this module names the two
//! facts of it that routing reads — how many operations it declares, and,
//! when there is exactly one, that operation's kind and top-level selection
//! set — and wraps the calls that read them.

use vstd::prelude::*;
use async_graphql_parser::types as ast;
use async_graphql_parser::types::ExecutableDocument;
use async_graphql_value::Variables;
use crate::OperationType;
use crate::query::{Operation, TopSelection};

verus! {

/// The parser's `ExecutableDocument`, opaque here: what routing reads of it
/// goes through the two named facts below.
#[verifier::external_type_specification]
#[verifier::external_body]
pub struct ExExecutableDocument(ExecutableDocument);

/// The parser's `Variables`, opaque here: carried through to the backend,
/// never read by routing.
#[verifier::external_type_specification]
#[verifier::external_body]
pub struct ExVariables(Variables);

/// `async_graphql_value::Name`, opaque: a key type of `Variables`.
#[verifier::external_type_specification]
#[verifier::external_body]
pub struct ExName(async_graphql_value::Name);

/// `async_graphql_value::ConstValue`, opaque: a value type of `Variables`.
#[verifier::external_type_specification]
#[verifier::external_body]
pub struct ExConstValue(async_graphql_value::ConstValue);

/// How many operations a parsed document declares, counting the single
/// anonymous operation as one.
pub uninterp spec fn doc_op_count(d: ExecutableDocument) -> nat;

/// The operation of a document that declares exactly one, reduced to its
/// declared kind and its top-level selection set in document order.
pub uninterp spec fn doc_operation(d: ExecutableDocument) -> Operation;

/// Relies on `async_graphql_parser::types::DocumentOperations`: a document
/// holds either one anonymous operation or a map of named ones, so the
/// number of operations is one or the map's length.
#[verifier::external_body]
pub fn operation_count(d: &ExecutableDocument) -> (r: usize)
    ensures
        r == doc_op_count(*d),
{
    match &d.operations {
        ast::DocumentOperations::Single(_) => 1,
        ast::DocumentOperations::Multiple(m) => m.len(),
    }
}

/// Relies on `async_graphql_parser::types`: the one operation of the
/// document carries its declared type and its selection set's items in
/// document order; each item is a field, a fragment spread or an inline
/// fragment.
#[verifier::external_body]
pub fn single_operation(d: &ExecutableDocument) -> (r: Operation)
    requires
        doc_op_count(*d) == 1,
    ensures
        r == doc_operation(*d),
{
    let op = match &d.operations {
        ast::DocumentOperations::Single(op) => &op.node,
        ast::DocumentOperations::Multiple(m) => &m.iter().next().expect("one operation").1.node,
    };
    Operation {
        op_type: match op.ty {
            ast::OperationType::Query => OperationType::Query,
            ast::OperationType::Mutation => OperationType::Mutation,
            ast::OperationType::Subscription => OperationType::Subscription },
        selections: op.selection_set.node.items.iter().map(|s| match &s.node {
            ast::Selection::Field(f) => TopSelection::Field(f.node.name.node.to_string()),
            ast::Selection::FragmentSpread(_) => TopSelection::FragmentSpread,
            ast::Selection::InlineFragment(_) => TopSelection::InlineFragment,
        }).collect(),
    }
}

} // verus!
