use bolt_crud::api::{Listing, Rejection, Todo, TodoError};
use bolt_crud::node::{Field, Node, Record};
use bolt_crud::value::{PropertyMap, Value};

fn labels(names: &[&str]) -> Vec<String> {
    names.iter().map(|name| name.to_string()).collect()
}

fn node(names: &[&str], properties: Vec<(&str, Value)>) -> Node {
    let mut map = PropertyMap::new();
    for (name, value) in properties {
        map.insert(name.to_string(), value);
    }
    Node { labels: labels(names), properties: map }
}

fn text(value: &str) -> Value {
    Value::String(value.to_string())
}

fn row(node: Node) -> Record {
    Record { fields: vec![Field::Node(node)] }
}

#[test]
fn decodes_first_label_and_description() {
    let todo = Todo::try_from(&node(&["Shopping"], vec![("description", text("buy milk"))]));
    assert_eq!(
        todo,
        Ok(Todo { title: "Shopping".to_string(), description: "buy milk".to_string() })
    );
}

#[test]
fn title_is_the_first_of_several_labels() {
    let todo = Todo::try_from(&node(
        &["First", "Second", "Third"],
        vec![("other", Value::Integer(1)), ("description", text("d"))],
    ))
    .unwrap();
    assert_eq!(todo.title, "First");
    assert_eq!(todo.description, "d");
}

#[test]
fn empty_description_is_a_description() {
    let todo = Todo::try_from(&node(&["T"], vec![("description", text(""))])).unwrap();
    assert_eq!(todo.description, "");
}

#[test]
fn node_without_labels_has_no_title() {
    let outcome = Todo::try_from(&node(&[], vec![("description", text("d"))]));
    assert_eq!(outcome, Err(TodoError::HasNoTitle));
}

#[test]
fn node_without_labels_and_description_has_no_title() {
    let outcome = Todo::try_from(&node(&[], vec![]));
    assert_eq!(outcome, Err(TodoError::HasNoTitle));
}

#[test]
fn node_without_description_key_has_no_description() {
    let outcome = Todo::try_from(&node(&["T"], vec![("Description", text("d"))]));
    assert_eq!(outcome, Err(TodoError::HasNoDescription));
}

#[test]
fn non_string_descriptions_are_incompatible() {
    for value in [
        Value::Null,
        Value::Boolean(true),
        Value::Integer(7),
        Value::Float(1.5f64.to_bits()),
        Value::Other,
    ] {
        let outcome = Todo::try_from(&node(&["T"], vec![("description", value)]));
        assert_eq!(outcome, Err(TodoError::IncompatibleTypeInDescription));
    }
}

#[test]
fn replaced_description_is_the_one_decoded() {
    let outcome = Todo::try_from(&node(
        &["T"],
        vec![("description", Value::Integer(1)), ("description", text("second"))],
    ));
    assert_eq!(outcome.unwrap().description, "second");
}

#[test]
fn listing_keeps_entries_in_order_and_reports_the_rest() {
    let records = vec![
        row(node(&["A"], vec![("description", text("a"))])),
        row(node(&[], vec![("description", text("nameless"))])),
        row(node(&["B"], vec![("description", text("b"))])),
        row(node(&["C"], vec![])),
        row(node(&["D"], vec![("description", Value::Boolean(false))])),
        row(node(&["E"], vec![("description", text("e"))])),
    ];
    let listing = Listing::from_records(&records);
    let titles: Vec<&str> = listing.todos.iter().map(|todo| todo.title.as_str()).collect();
    assert_eq!(titles, vec!["A", "B", "E"]);
    let descriptions: Vec<&str> =
        listing.todos.iter().map(|todo| todo.description.as_str()).collect();
    assert_eq!(descriptions, vec!["a", "b", "e"]);
    assert_eq!(
        listing.rejected,
        vec![
            Rejection { row: 1, reason: TodoError::HasNoTitle },
            Rejection { row: 3, reason: TodoError::HasNoDescription },
            Rejection { row: 4, reason: TodoError::IncompatibleTypeInDescription },
        ]
    );
    assert_eq!(listing.todos.len() + listing.rejected.len(), records.len());
}

#[test]
fn listing_of_no_records_is_empty() {
    let listing = Listing::from_records(&Vec::new());
    assert!(listing.todos.is_empty());
    assert!(listing.rejected.is_empty());
}

#[test]
fn listing_reads_only_the_first_field() {
    let records = vec![Record {
        fields: vec![
            Field::Node(node(&["First"], vec![("description", text("1"))])),
            Field::Node(node(&["Second"], vec![("description", text("2"))])),
            Field::Scalar(Value::Integer(3)),
        ],
    }];
    let listing = Listing::from_records(&records);
    assert_eq!(listing.todos.len(), 1);
    assert_eq!(listing.todos[0].title, "First");
    assert!(listing.rejected.is_empty());
}

#[test]
fn record_that_leads_with_a_scalar_is_reported_and_the_rest_is_read() {
    let records = vec![
        row(node(&["A"], vec![("description", text("a"))])),
        Record { fields: vec![Field::Scalar(Value::Integer(1))] },
        row(node(&["B"], vec![("description", text("b"))])),
    ];
    let listing = Listing::from_records(&records);
    let titles: Vec<&str> = listing.todos.iter().map(|todo| todo.title.as_str()).collect();
    assert_eq!(titles, vec!["A", "B"]);
    assert_eq!(listing.rejected, vec![Rejection { row: 1, reason: TodoError::HasNoTitle }]);
}

#[test]
fn record_without_fields_is_reported_and_the_rest_is_read() {
    let records = vec![
        Record { fields: vec![] },
        row(node(&["A"], vec![("description", text("a"))])),
    ];
    let listing = Listing::from_records(&records);
    assert_eq!(listing.todos.len(), 1);
    assert_eq!(listing.todos[0].title, "A");
    assert_eq!(listing.rejected, vec![Rejection { row: 0, reason: TodoError::HasNoTitle }]);
}

#[test]
fn scalar_before_a_node_hides_the_node() {
    let records = vec![Record {
        fields: vec![
            Field::Scalar(Value::String("x".to_string())),
            Field::Node(node(&["A"], vec![("description", text("a"))])),
        ],
    }];
    let listing = Listing::from_records(&records);
    assert!(listing.todos.is_empty());
    assert_eq!(listing.rejected, vec![Rejection { row: 0, reason: TodoError::HasNoTitle }]);
}

#[test]
fn record_reads_as_its_leading_node() {
    let entry = row(node(&["A"], vec![("description", text("a"))]));
    assert_eq!(
        Todo::from_record(&entry),
        Ok(Todo { title: "A".to_string(), description: "a".to_string() })
    );
    assert_eq!(
        Todo::from_record(&row(node(&["A"], vec![]))),
        Err(TodoError::HasNoDescription)
    );
    assert_eq!(Todo::from_record(&Record { fields: vec![] }), Err(TodoError::HasNoTitle));
    assert_eq!(
        Todo::from_record(&Record { fields: vec![Field::Scalar(Value::Null)] }),
        Err(TodoError::HasNoTitle)
    );
}

#[test]
fn leading_node_is_the_first_field_if_a_node() {
    let with_node = row(node(&["A"], vec![]));
    assert_eq!(with_node.leading_node().unwrap().labels, vec!["A".to_string()]);
    let scalar_first = Record {
        fields: vec![Field::Scalar(Value::Null), Field::Node(node(&["A"], vec![]))],
    };
    assert!(scalar_first.leading_node().is_none());
}
