//! What a query hands back: records, and the graph nodes inside them.

use vstd::prelude::*;
use crate::value::{PropertyMap, Value, ValueView};

verus! {

/// The contents of a sequence of strings.
pub open spec fn texts(strings: Seq<String>) -> Seq<Seq<char>> {
    strings.map_values(|s: String| s@)
}

/// A node of the graph: its labels, in the order in which the server gave
/// them, and its properties.
#[derive(Debug)]
pub struct Node {
    pub labels: Vec<String>,
    pub properties: PropertyMap,
}

/// The mathematical content of a [`Node`].
pub ghost struct NodeView {
    pub labels: Seq<Seq<char>>,
    pub properties: Map<Seq<char>, ValueView>,
}

impl View for Node {
    type V = NodeView;

    open spec fn view(&self) -> NodeView {
        NodeView { labels: texts(self.labels@), properties: self.properties@ }
    }
}

/// One field of a record: a node, or a scalar value.
#[derive(Debug)]
pub enum Field {
    Node(Node),
    Scalar(Value),
}

/// The mathematical content of a [`Field`].
pub ghost enum FieldView {
    Node(NodeView),
    Scalar(ValueView),
}

impl View for Field {
    type V = FieldView;

    open spec fn view(&self) -> FieldView {
        match self {
            Field::Node(node) => FieldView::Node(node@),
            Field::Scalar(value) => FieldView::Scalar(value@),
        }
    }
}

/// One row of a query's result: its fields, in the order of the query's
/// `RETURN` clause.
#[derive(Debug)]
pub struct Record {
    pub fields: Vec<Field>,
}

/// The mathematical content of a [`Record`].
pub ghost struct RecordView {
    pub fields: Seq<FieldView>,
}

impl View for Record {
    type V = RecordView;

    open spec fn view(&self) -> RecordView {
        RecordView { fields: self.fields@.map_values(|f: Field| f@) }
    }
}

/// The contents of a sequence of records.
pub open spec fn records_view(records: Seq<Record>) -> Seq<RecordView> {
    records.map_values(|r: Record| r@)
}

/// The node that a record leads with, if its first field is one.
pub open spec fn leading_node(record: RecordView) -> Option<NodeView> {
    if record.fields.len() == 0 {
        None
    } else {
        match record.fields[0] {
            FieldView::Node(node) => Some(node),
            FieldView::Scalar(_) => None,
        }
    }
}

impl Record {
    /// The node that the record leads with, if its first field is one.
    pub fn leading_node(&self) -> (found: Option<&Node>)
        ensures
            found is Some <==> leading_node(self@) is Some,
            found matches Some(node) ==> leading_node(self@) == Some(node@),
    {
        if self.fields.len() == 0 {
            None
        } else {
            match &self.fields[0] {
                Field::Node(node) => Some(node),
                Field::Scalar(_) => None,
            }
        }
    }
}

} // verus!
