//! Query processing: derives the routing view of a parsed document.

use vstd::prelude::*;
use async_graphql_parser::types::ExecutableDocument;
use async_graphql_value::Variables;
use crate::OperationType;
use crate::document::{doc_op_count, doc_operation, operation_count, single_operation};

verus! {

/// One item of an operation's top-level selection set, reduced to what
/// routing needs: a plain field (with its name) or a fragment of either kind.
#[derive(Debug)]
pub enum TopSelection {
    Field(String),
    FragmentSpread,
    InlineFragment,
}

/// One operation of a document: its declared kind and its top-level
/// selection set, in document order.
#[derive(Debug)]
pub struct Operation {
    pub op_type: OperationType,
    pub selections: Vec<TopSelection>,
}

/// Why a document could not be reduced to a routing view.
#[derive(Clone, Copy, Debug, PartialEq, Eq, Structural)]
pub enum QueryError {
    /// The document holds no operation, or more than one.
    NoOperationSelected,
    /// The selected operation's top-level selection set holds no plain field.
    NoFieldSelected,
}

/// The name of the first plain field of a top-level selection set, in
/// document order; fragments are skipped, not expanded.
pub open spec fn first_field_name(sels: Seq<TopSelection>) -> Option<Seq<char>>
    decreases sels.len(),
{
    if sels.len() == 0 {
        None
    } else {
        match sels[0] {
            TopSelection::Field(name) => Some(name@),
            _ => first_field_name(sels.drop_first()),
        }
    }
}

/// The name of the first plain field of a selection set, in document order,
/// skipping fragment spreads and inline fragments; `None` when the set holds
/// no plain field.
pub fn first_field(sels: &Vec<TopSelection>) -> (r: Option<String>)
    ensures
        match r {
            Some(name) => first_field_name(sels@) == Some(name@),
            None => first_field_name(sels@) is None,
        },
{
    let ghost s: Seq<TopSelection> = sels@;
    let n = sels.len();
    let mut i: usize = 0;
    proof {
        assert(s.skip(0) =~= s);
    }
    while i < n
        invariant
            sels@ == s,
            n == s.len(),
            i <= n,
            first_field_name(s) == first_field_name(s.skip(i as int)),
        decreases n - i,
    {
        assert(s.skip(i as int)[0] == s[i as int]);
        match &sels[i] {
            TopSelection::Field(name) => {
                return Some(name.clone());
            },
            _ => {
                proof {
                    assert(s.skip(i as int).drop_first() =~= s.skip(i + 1));
                }
            },
        }
        i = i + 1;
    }
    assert(s.skip(n as int).len() == 0);
    None
}

/// Whether a routing key names one of the two introspection meta-fields.
pub open spec fn is_introspection_name(name: Seq<char>) -> bool {
    name == "__schema"@ || name == "__type"@
}

/// The routing view of a parsed request: the document and its variables,
/// borrowed for downstream forwarding, with the selected operation's kind
/// and the routing key derived from it.
#[derive(Debug)]
pub struct ProcessedQuery<'a> {
    pub document: &'a ExecutableDocument,
    pub operation_type: OperationType,
    pub operation_name: String,
    pub variables: &'a Variables,
}

impl<'a> ProcessedQuery<'a> {
    /// Derives the routing view of a document: succeeds exactly when the
    /// document declares one operation whose top-level selection set holds a
    /// plain field, and then the routing key is the first such field's name,
    /// in document order, and the operation kind is the declared one.
    pub fn try_new(document: &'a ExecutableDocument, variables: &'a Variables) -> (r: Result<
        Self,
        QueryError,
    >)
        ensures
            match r {
                Ok(pq) => {
                    &&& doc_op_count(*document) == 1
                    &&& first_field_name(doc_operation(*document).selections@) == Some(
                        pq.operation_name@,
                    )
                    &&& pq.operation_type == doc_operation(*document).op_type
                    &&& pq.document == document
                    &&& pq.variables == variables
                },
                Err(QueryError::NoOperationSelected) => doc_op_count(*document) != 1,
                Err(QueryError::NoFieldSelected) => {
                    &&& doc_op_count(*document) == 1
                    &&& first_field_name(doc_operation(*document).selections@) is None
                },
            },
    {
        if operation_count(document) != 1 {
            return Err(QueryError::NoOperationSelected);
        }
        let operation = single_operation(document);
        match first_field(&operation.selections) {
            Some(name) => Ok(ProcessedQuery {
                document,
                operation_type: operation.op_type,
                operation_name: name,
                variables,
            }),
            None => Err(QueryError::NoFieldSelected),
        }
    }

    /// True exactly when the routing key is `__schema` or `__type`, the two
    /// meta-fields answered locally instead of being routed to a backend.
    pub fn is_introspection(&self) -> (r: bool)
        ensures
            r == is_introspection_name(self.operation_name@),
    {
        let schema: String = "__schema".to_owned();
        let ty: String = "__type".to_owned();
        self.operation_name == schema || self.operation_name == ty
    }
}

} // verus!
