//! To-do entries, and how they are read out of graph nodes.

use vstd::prelude::*;
use crate::db::{on_command, Command, Db, Step};
use crate::node::{leading_node, records_view, Node, NodeView, Record, RecordView};
use crate::value::{Value, ValueView};

verus! {

/// A to-do entry.
#[derive(Debug, PartialEq, Eq)]
pub struct Todo {
    pub title: String,
    pub description: String,
}

/// The mathematical content of a [`Todo`].
pub ghost struct TodoView {
    pub title: Seq<char>,
    pub description: Seq<char>,
}

impl View for Todo {
    type V = TodoView;

    open spec fn view(&self) -> TodoView {
        TodoView { title: self.title@, description: self.description@ }
    }
}

/// Why a node is no to-do entry.
#[derive(Debug, Clone, Copy, PartialEq, Eq, Structural)]
pub enum TodoError {
    /// There is no label to take a title from: the node has none, or the
    /// record does not lead with a node.
    HasNoTitle,
    /// The node has no property named `description`.
    HasNoDescription,
    /// The node's `description` is not a string.
    IncompatibleTypeInDescription,
}

/// The name of the property that holds an entry's description.
pub open spec fn description_key() -> Seq<char> {
    "description"@
}

/// The entry that a node stands for: its first label is the title, its
/// `description` property, a string, the description.
pub open spec fn decode(node: NodeView) -> Result<TodoView, TodoError> {
    if node.labels.len() == 0 {
        Err(TodoError::HasNoTitle)
    } else if !node.properties.contains_key(description_key()) {
        Err(TodoError::HasNoDescription)
    } else {
        match node.properties[description_key()] {
            ValueView::String(description) => Ok(
                TodoView { title: node.labels[0], description },
            ),
            _ => Err(TodoError::IncompatibleTypeInDescription),
        }
    }
}

/// The content of the outcome of a decoding.
pub open spec fn decoded_view(outcome: Result<Todo, TodoError>) -> Result<TodoView, TodoError> {
    match outcome {
        Ok(todo) => Ok(todo@),
        Err(error) => Err(error),
    }
}

impl Todo {
    /// Reads a node as a to-do entry.
    pub fn try_from(value: &Node) -> (outcome: Result<Todo, TodoError>)
        ensures
            decoded_view(outcome) == decode(value@),
    {
        if value.labels.len() == 0 {
            return Err(TodoError::HasNoTitle);
        }
        match value.properties.get("description") {
            None => Err(TodoError::HasNoDescription),
            Some(Value::String(description)) => Ok(
                Todo { title: value.labels[0].clone(), description: description.clone() },
            ),
            Some(_) => Err(TodoError::IncompatibleTypeInDescription),
        }
    }
}

/// What a record reads as: the entry that the node at its head stands for.
/// A record that does not lead with a node has no label to take a title
/// from.
pub open spec fn reading(record: RecordView) -> Result<TodoView, TodoError> {
    match leading_node(record) {
        Some(node) => decode(node),
        None => Err(TodoError::HasNoTitle),
    }
}

impl Todo {
    /// Reads the first field of a record as a to-do entry.
    pub fn from_record(record: &Record) -> (outcome: Result<Todo, TodoError>)
        ensures
            decoded_view(outcome) == reading(record@),
    {
        match record.leading_node() {
            Some(node) => Todo::try_from(node),
            None => Err(TodoError::HasNoTitle),
        }
    }
}

/// A record that is no to-do entry: the record's place among the records
/// that were read, and what it lacks.
#[derive(Debug, Clone, Copy, PartialEq, Eq, Structural)]
pub struct Rejection {
    pub row: usize,
    pub reason: TodoError,
}

/// What a batch of records holds: the entries that could be read, in the
/// order of their records, and beside them one rejection for each record
/// that is no entry. Nothing is dropped in silence, and no record keeps the
/// others from being read.
#[derive(Debug)]
pub struct Listing {
    pub todos: Vec<Todo>,
    pub rejected: Vec<Rejection>,
}

/// The mathematical content of a [`Listing`].
pub ghost struct ListingView {
    pub todos: Seq<TodoView>,
    pub rejected: Seq<Rejection>,
}

impl View for Listing {
    type V = ListingView;

    open spec fn view(&self) -> ListingView {
        ListingView { todos: self.todos@.map_values(|t: Todo| t@), rejected: self.rejected@ }
    }
}

/// The entry in a record, if the record reads as one.
pub open spec fn entry_in(record: RecordView) -> Option<TodoView> {
    match reading(record) {
        Ok(todo) => Some(todo),
        Err(_) => None,
    }
}

/// The rejection of the record at place `row`, if the record reads as no
/// entry.
pub open spec fn rejection_in(row: int, record: RecordView) -> Option<Rejection> {
    match reading(record) {
        Ok(_) => None,
        Err(reason) => Some(Rejection { row: row as usize, reason }),
    }
}

/// Each record paired with its place.
pub open spec fn numbered(records: Seq<RecordView>) -> Seq<(int, RecordView)> {
    Seq::new(records.len(), |i: int| (i, records[i]))
}

/// `entry_in` as a function value.
pub open spec fn entry_fn() -> spec_fn(RecordView) -> Option<TodoView> {
    |record: RecordView| entry_in(record)
}

/// `rejection_in` as a function value on numbered records.
pub open spec fn rejection_fn() -> spec_fn((int, RecordView)) -> Option<Rejection> {
    |pair: (int, RecordView)| rejection_in(pair.0, pair.1)
}

/// What a batch of records holds: the entries of the records that read as
/// one, in their order, and a rejection for each of the others.
pub open spec fn listing_of(records: Seq<RecordView>) -> ListingView {
    ListingView {
        todos: records.filter_map(entry_fn()),
        rejected: numbered(records).filter_map(rejection_fn()),
    }
}

impl Listing {
    /// Reads each record as a to-do entry.
    ///
    /// A record that is no entry is reported among the rejections, whatever
    /// it holds; the records around it are read all the same.
    pub fn from_records(records: &Vec<Record>) -> (listing: Listing)
        ensures
            listing@ == listing_of(records_view(records@)),
    {
        let ghost all = records_view(records@);
        let mut todos: Vec<Todo> = Vec::new();
        let mut rejected: Vec<Rejection> = Vec::new();
        let mut i: usize = 0;
        while i < records.len()
            invariant
                0 <= i <= records.len(),
                all == records_view(records@),
                todos@.map_values(|t: Todo| t@) == all.take(i as int).filter_map(entry_fn()),
                rejected@ == numbered(all).take(i as int).filter_map(rejection_fn()),
            decreases records.len() - i,
        {
            proof {
                all.lemma_filter_map_take_succ(entry_fn(), i as int);
                numbered(all).lemma_filter_map_take_succ(rejection_fn(), i as int);
            }
            match Todo::from_record(&records[i]) {
                Ok(todo) => {
                    todos.push(todo);
                },
                Err(reason) => {
                    rejected.push(Rejection { row: i, reason });
                },
            }
            i += 1;
        }
        proof {
            assert(all.take(i as int) == all);
            assert(numbered(all).take(i as int) == numbered(all));
        }
        Listing { todos, rejected }
    }
}

/// A listing accounts for every record: each record that was read is
/// either an entry of the listing or one of its rejections.
pub proof fn lemma_listing_is_complete(records: Seq<RecordView>)
    ensures
        listing_of(records).todos.len() + listing_of(records).rejected.len() == records.len(),
{
    lemma_listing_counts(records, records.len() as int);
    assert(records.take(records.len() as int) == records);
    assert(numbered(records).take(records.len() as int) == numbered(records));
}

/// The first `n` records are accounted for.
proof fn lemma_listing_counts(records: Seq<RecordView>, n: int)
    requires
        0 <= n <= records.len(),
    ensures
        records.take(n).filter_map(entry_fn()).len() + numbered(records).take(n).filter_map(
            rejection_fn(),
        ).len() == n,
    decreases n,
{
    if n > 0 {
        lemma_listing_counts(records, n - 1);
        records.lemma_filter_map_take_succ(entry_fn(), n - 1);
        numbered(records).lemma_filter_map_take_succ(rejection_fn(), n - 1);
    }
}

/// `rejection` tells of the record at place `row`: it gives that place, and
/// the record reads as no entry for the reason given.
pub open spec fn tells_of(rejection: Rejection, records: Seq<RecordView>, row: int) -> bool {
    &&& 0 <= row < records.len()
    &&& rejection.row == row
    &&& reading(records[row]) == Err::<TodoView, TodoError>(rejection.reason)
}

/// Each rejection of a listing tells of one of the records that were read.
pub proof fn lemma_rejections_tell_of_records(records: Seq<RecordView>, k: int)
    requires
        records.len() <= usize::MAX,
        0 <= k < listing_of(records).rejected.len(),
    ensures
        exists|row: int| tells_of(listing_of(records).rejected[k], records, row),
{
    assert(numbered(records).take(records.len() as int) == numbered(records));
    lemma_rejections_so_far(records, records.len() as int, k);
}

/// Each rejection among the first `n` records tells of one of them.
proof fn lemma_rejections_so_far(records: Seq<RecordView>, n: int, k: int)
    requires
        records.len() <= usize::MAX,
        0 <= n <= records.len(),
        0 <= k < numbered(records).take(n).filter_map(rejection_fn()).len(),
    ensures
        exists|row: int|
            row < n && tells_of(
                numbered(records).take(n).filter_map(rejection_fn())[k],
                records,
                row,
            ),
    decreases n,
{
    if n > 0 {
        numbered(records).lemma_filter_map_take_succ(rejection_fn(), n - 1);
        let earlier = numbered(records).take(n - 1).filter_map(rejection_fn());
        let now = numbered(records).take(n).filter_map(rejection_fn());
        if k < earlier.len() {
            lemma_rejections_so_far(records, n - 1, k);
            let row = choose|row: int| row < n - 1 && tells_of(earlier[k], records, row);
            assert(tells_of(now[k], records, row));
        } else {
            assert(tells_of(now[k], records, n - 1));
        }
    }
}

/// Each entry of a listing is what one of the records reads as.
pub proof fn lemma_entries_come_from_records(records: Seq<RecordView>, k: int)
    requires
        0 <= k < listing_of(records).todos.len(),
    ensures
        exists|row: int|
            0 <= row < records.len() && reading(#[trigger] records[row]) == Ok::<
                TodoView,
                TodoError,
            >(listing_of(records).todos[k]),
{
    assert(records.take(records.len() as int) == records);
    lemma_entries_so_far(records, records.len() as int, k);
}

/// Each entry among the first `n` records is what one of them reads as.
proof fn lemma_entries_so_far(records: Seq<RecordView>, n: int, k: int)
    requires
        0 <= n <= records.len(),
        0 <= k < records.take(n).filter_map(entry_fn()).len(),
    ensures
        exists|row: int|
            0 <= row < n && reading(#[trigger] records[row]) == Ok::<TodoView, TodoError>(
                records.take(n).filter_map(entry_fn())[k],
            ),
    decreases n,
{
    if n > 0 {
        records.lemma_filter_map_take_succ(entry_fn(), n - 1);
        let earlier = records.take(n - 1).filter_map(entry_fn());
        if k < earlier.len() {
            lemma_entries_so_far(records, n - 1, k);
        } else {
            assert(reading(records[n - 1]) is Ok);
        }
    }
}

/// The label clause that selects the entries with the given title.
pub open spec fn label_clause(title: Seq<char>) -> Seq<char> {
    ":"@ + title
}

/// The change that replaces what an entry holds by the given description.
pub open spec fn description_change(description: Seq<char>) -> Seq<char> {
    "= { description: \""@ + description + "\" }"@
}

/// The command that reads every entry.
pub open spec fn get_command() -> Command {
    Command::Get { filter: ""@ }
}

/// The command that stores an entry: a node labelled with the title, whose
/// `description` holds the description.
pub open spec fn post_command(input: TodoView) -> Command {
    Command::Create {
        label: label_clause(input.title),
        field_name: description_key(),
        value: input.description,
    }
}

/// The command that gives the entries titled `title` a new description.
pub open spec fn update_command(title: Seq<char>, description: Seq<char>) -> Command {
    Command::Update { filter: label_clause(title), changes: description_change(description) }
}

/// The command that deletes the entries titled `title`.
pub open spec fn delete_command(title: Seq<char>) -> Command {
    Command::Delete { filter: label_clause(title) }
}

/// Writes the clause of [`label_clause`].
fn label_for(title: &str) -> (label: String)
    ensures
        label@ == label_clause(title@),
{
    let mut label = String::from_str(":");
    label.append(title);
    label
}

/// Starts reading every entry.
pub fn get(db: &mut Db) -> (step: Step)
    ensures
        final(db)@ == on_command(old(db)@, get_command()).session,
        step@ == on_command(old(db)@, get_command()).step,
{
    db.get("")
}

/// Starts storing the entry `input`.
pub fn post(db: &mut Db, input: &Todo) -> (step: Step)
    ensures
        final(db)@ == on_command(old(db)@, post_command(input@)).session,
        step@ == on_command(old(db)@, post_command(input@)).step,
{
    let label = label_for(input.title.as_str());
    db.create(label.as_str(), "description", input.description.as_str())
}

/// Starts giving the entries titled `title` the description `description`.
pub fn update(db: &mut Db, title: &str, description: &str) -> (step: Step)
    ensures
        final(db)@ == on_command(old(db)@, update_command(title@, description@)).session,
        step@ == on_command(old(db)@, update_command(title@, description@)).step,
{
    let filter = label_for(title);
    let mut changes = String::from_str("= { description: \"");
    changes.append(description);
    changes.append("\" }");
    db.update(filter.as_str(), changes.as_str())
}

/// Starts deleting the entries titled `title`.
pub fn delete(db: &mut Db, title: &str) -> (step: Step)
    ensures
        final(db)@ == on_command(old(db)@, delete_command(title@)).session,
        step@ == on_command(old(db)@, delete_command(title@)).step,
{
    let filter = label_for(title);
    db.delete(filter.as_str())
}

} // verus!
