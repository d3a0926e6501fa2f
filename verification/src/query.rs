//! The text of the queries.
//!
//! Labels, filters and changes are fragments of the query language that the
//! caller writes. They are put into the text as they are, unchecked and
//! unescaped: whoever supplies them is trusted with the whole database.
//! Values travel beside the text, as parameters.

use vstd::prelude::*;

verus! {

/// The name under which the value of a new node's field is bound.
pub open spec fn value_parameter() -> Seq<char> {
    "value"@
}

/// The query that creates a node with the given label clause and one field,
/// whose value is the parameter `$value`.
pub open spec fn create_text(label: Seq<char>, field_name: Seq<char>) -> Seq<char> {
    "CREATE ( "@ + label + " { "@ + field_name + " : $value } )"@
}

/// The query that returns the nodes that match `filter`.
pub open spec fn match_text(filter: Seq<char>) -> Seq<char> {
    "MATCH ( n"@ + filter + " ) RETURN n"@
}

/// The query that applies `changes` to the nodes that match `filter`.
pub open spec fn update_text(filter: Seq<char>, changes: Seq<char>) -> Seq<char> {
    "MATCH ( n"@ + filter + " ) SET n"@ + changes
}

/// The query that deletes the nodes that match `filter`, together with
/// their relationships.
pub open spec fn delete_text(filter: Seq<char>) -> Seq<char> {
    "MATCH ( n"@ + filter + " ) DETACH DELETE n"@
}

/// Writes the query of [`create_text`].
pub fn create_query(label: &str, field_name: &str) -> (query: String)
    ensures
        query@ == create_text(label@, field_name@),
{
    let mut query = String::from_str("CREATE ( ");
    query.append(label);
    query.append(" { ");
    query.append(field_name);
    query.append(" : $value } )");
    query
}

/// Writes the query of [`match_text`].
pub fn match_query(filter: &str) -> (query: String)
    ensures
        query@ == match_text(filter@),
{
    let mut query = String::from_str("MATCH ( n");
    query.append(filter);
    query.append(" ) RETURN n");
    query
}

/// Writes the query of [`update_text`].
pub fn update_query(filter: &str, changes: &str) -> (query: String)
    ensures
        query@ == update_text(filter@, changes@),
{
    let mut query = String::from_str("MATCH ( n");
    query.append(filter);
    query.append(" ) SET n");
    query.append(changes);
    query
}

/// Writes the query of [`delete_text`].
pub fn delete_query(filter: &str) -> (query: String)
    ensures
        query@ == delete_text(filter@),
{
    let mut query = String::from_str("MATCH ( n");
    query.append(filter);
    query.append(" ) DETACH DELETE n");
    query
}

} // verus!
