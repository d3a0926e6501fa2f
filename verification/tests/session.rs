use bolt_crud::db::{
    versions_on_offer, Db, DbError, Handshake, Output, Phase, Kind, Reply, Request, Step,
    ALL_RECORDS, V4_0,
};
use bolt_crud::node::{Field, Node, Record};
use bolt_crud::value::{PropertyMap, Value};

fn shown<T: std::fmt::Debug>(value: &T) -> String {
    format!("{:?}", value)
}

fn fresh() -> Db {
    Db::new(Handshake::Answered(V4_0)).unwrap()
}

fn ready() -> Db {
    let mut db = fresh();
    assert!(matches!(db.login("neo4j", "secret"), Step::Send(Request::Hello { .. })));
    assert!(matches!(db.advance(Reply::Success(vec![])), Step::Finished(Output::Done)));
    db
}

fn entry_record(label: &str, description: &str) -> Record {
    let mut properties = PropertyMap::new();
    properties.insert("description".to_string(), Value::String(description.to_string()));
    Record { fields: vec![Field::Node(Node { labels: vec![label.to_string()], properties })] }
}

fn run_of(step: Step) -> (String, String) {
    match step {
        Step::Send(Request::Run { query, params }) => (query, shown(&params)),
        other => panic!("not a query: {:?}", other),
    }
}

fn pull_of(step: Step) -> String {
    match step {
        Step::Send(Request::Pull { metadata }) => shown(&metadata),
        other => panic!("not a pull: {:?}", other),
    }
}

const NO_PARAMS: &str = "Params { value: {} }";
const PULL_ONE: &str = "Metadata { value: {\"n\": Integer(1)} }";
const PULL_ALL: &str = "Metadata { value: {\"n\": Integer(-1)} }";

fn failed_with(step: Step) -> DbError {
    match step {
        Step::Failed(error) => error,
        other => panic!("not a failure: {:?}", other),
    }
}

#[test]
fn offer_is_version_four_alone() {
    assert_eq!(versions_on_offer(), [V4_0, 0, 0, 0]);
    assert_eq!(V4_0, bolt_proto::version::V4_0);
    assert_eq!(ALL_RECORDS, -1);
}

#[test]
fn unreachable_server_is_a_connect_error() {
    assert_eq!(Db::new(Handshake::Unreachable).err(), Some(DbError::Connect));
}

#[test]
fn server_that_takes_no_version_is_a_handshake_error() {
    assert_eq!(Db::new(Handshake::Answered(0)).err(), Some(DbError::Handshake));
}

#[test]
fn version_that_was_not_offered_is_a_handshake_error() {
    assert_eq!(
        Db::new(Handshake::Answered(bolt_proto::version::V4_1)).err(),
        Some(DbError::Handshake)
    );
    assert_eq!(
        Db::new(Handshake::Answered(bolt_proto::version::V3_0)).err(),
        Some(DbError::Handshake)
    );
}

#[test]
fn accepted_version_opens_an_unauthenticated_session() {
    let db = fresh();
    assert_eq!(db.version(), 4);
    assert_eq!(db.phase(), Phase::Unauthenticated);
}

#[test]
fn login_sends_agent_scheme_and_credentials() {
    let mut db = fresh();
    let metadata = match db.login("alice", "p@ss") {
        Step::Send(Request::Hello { metadata }) => shown(&metadata),
        other => panic!("not a login: {:?}", other),
    };
    assert!(metadata.contains("\"user_agent\": String(\"neo4j\")"));
    assert!(metadata.contains("\"scheme\": String(\"basic\")"));
    assert!(metadata.contains("\"principal\": String(\"alice\")"));
    assert!(metadata.contains("\"credentials\": String(\"p@ss\")"));
    assert_eq!(metadata.matches("String(").count(), 4);
    assert_eq!(metadata.matches("\": ").count(), 4);
    assert_eq!(db.phase(), Phase::LoggingIn);
}

#[test]
fn acknowledged_login_makes_the_session_ready() {
    let db = ready();
    assert_eq!(db.phase(), Phase::Ready);
    assert_eq!(db.version(), V4_0);
}

#[test]
fn refused_login_is_an_auth_error_and_closes() {
    let mut db = fresh();
    db.login("alice", "wrong");
    assert_eq!(failed_with(db.advance(Reply::Failure)), DbError::Auth);
    assert_eq!(db.phase(), Phase::Closed);
    assert_eq!(DbError::Auth.message(), "Login error");
}

#[test]
fn login_over_a_broken_connection_is_an_auth_error() {
    let mut db = fresh();
    db.login("alice", "secret");
    assert_eq!(failed_with(db.advance(Reply::Severed)), DbError::Auth);
    assert_eq!(db.phase(), Phase::Closed);
}

#[test]
fn second_login_is_refused() {
    let mut db = ready();
    assert_eq!(failed_with(db.login("alice", "secret")), DbError::Auth);
    assert_eq!(db.phase(), Phase::Ready);
}

#[test]
fn queries_before_login_are_auth_errors() {
    let mut db = fresh();
    assert_eq!(failed_with(db.create(":X", "description", "d")), DbError::Auth);
    assert_eq!(failed_with(db.get("")), DbError::Auth);
    assert_eq!(failed_with(db.update("", ":human")), DbError::Auth);
    assert_eq!(failed_with(db.delete("")), DbError::Auth);
    assert_eq!(db.phase(), Phase::Unauthenticated);
}

#[test]
fn create_then_get_round_trip() {
    let mut db = ready();
    let (query, params) = run_of(db.create(":X", "description", "d"));
    assert_eq!(query, "CREATE ( :X { description : $value } )");
    assert_eq!(params, "Params { value: {\"value\": String(\"d\")} }");
    assert_eq!(db.phase(), Phase::Running(Kind::Create));
    assert_eq!(pull_of(db.advance(Reply::Success(vec![]))), PULL_ONE);
    assert_eq!(db.phase(), Phase::Pulling(Kind::Create));
    assert!(matches!(db.advance(Reply::Success(vec![])), Step::Finished(Output::Done)));
    assert_eq!(db.phase(), Phase::Ready);

    let (query, params) = run_of(db.get(":X"));
    assert_eq!(query, "MATCH ( n:X ) RETURN n");
    assert_eq!(params, NO_PARAMS);
    assert_eq!(pull_of(db.advance(Reply::Success(vec![]))), PULL_ALL);
    match db.advance(Reply::Success(vec![entry_record("X", "d")])) {
        Step::Finished(Output::Listing(listing)) => {
            assert_eq!(listing.todos.len(), 1);
            assert_eq!(listing.todos[0].title, "X");
            assert_eq!(listing.todos[0].description, "d");
            assert!(listing.rejected.is_empty());
        }
        other => panic!("not a listing: {:?}", other),
    }
    assert_eq!(db.phase(), Phase::Ready);
}

#[test]
fn reading_twice_gives_the_same_entries() {
    let mut db = ready();
    let mut seen = Vec::new();
    for _ in 0..2 {
        let (query, _) = run_of(db.get(":A{name: \"n\"}"));
        assert_eq!(query, "MATCH ( n:A{name: \"n\"} ) RETURN n");
        assert_eq!(pull_of(db.advance(Reply::Success(vec![]))), PULL_ALL);
        let records = vec![entry_record("A", "one"), entry_record("A", "two")];
        match db.advance(Reply::Success(records)) {
            Step::Finished(Output::Listing(listing)) => seen.push(listing.todos),
            other => panic!("not a listing: {:?}", other),
        }
        assert_eq!(db.phase(), Phase::Ready);
    }
    assert_eq!(seen[0], seen[1]);
    assert_eq!(seen[0].len(), 2);
}

#[test]
fn update_adds_a_field_with_the_changes_as_written() {
    let mut db = ready();
    let (query, params) = run_of(db.update(":A", "+= {k: \"v\"}"));
    assert_eq!(query, "MATCH ( n:A ) SET n+= {k: \"v\"}");
    assert_eq!(params, NO_PARAMS);
    assert_eq!(db.phase(), Phase::Running(Kind::Update));
    assert_eq!(pull_of(db.advance(Reply::Success(vec![]))), PULL_ALL);
    assert!(matches!(db.advance(Reply::Success(vec![])), Step::Finished(Output::Done)));
}

#[test]
fn delete_all_then_get_all_is_empty() {
    let mut db = ready();
    let (query, params) = run_of(db.delete(""));
    assert_eq!(query, "MATCH ( n ) DETACH DELETE n");
    assert_eq!(params, NO_PARAMS);
    assert_eq!(pull_of(db.advance(Reply::Success(vec![]))), PULL_ALL);
    assert!(matches!(db.advance(Reply::Success(vec![])), Step::Finished(Output::Done)));
    let (query, _) = run_of(db.get(""));
    assert_eq!(query, "MATCH ( n ) RETURN n");
    db.advance(Reply::Success(vec![]));
    match db.advance(Reply::Success(vec![])) {
        Step::Finished(Output::Listing(listing)) => {
            assert!(listing.todos.is_empty());
            assert!(listing.rejected.is_empty());
        }
        other => panic!("not a listing: {:?}", other),
    }
}

#[test]
fn records_of_a_write_are_not_read() {
    let mut db = ready();
    db.delete(":X");
    db.advance(Reply::Success(vec![]));
    let step = db.advance(Reply::Success(vec![Record { fields: vec![] }]));
    assert!(matches!(step, Step::Finished(Output::Done)));
}

#[test]
fn creates_one_after_another_all_show_up() {
    let mut db = ready();
    let labels = [":A", ":B", ":C", ":D", ":E"];
    for label in labels {
        let (query, _) = run_of(db.create(label, "description", "d"));
        assert_eq!(query, format!("CREATE ( {} {{ description : $value }} )", label));
        assert_eq!(pull_of(db.advance(Reply::Success(vec![]))), PULL_ONE);
        assert!(matches!(db.advance(Reply::Success(vec![])), Step::Finished(Output::Done)));
    }
    run_of(db.get(""));
    db.advance(Reply::Success(vec![]));
    let records = labels.iter().map(|label| entry_record(&label[1..], "d")).collect();
    match db.advance(Reply::Success(records)) {
        Step::Finished(Output::Listing(listing)) => {
            let titles: Vec<&str> = listing.todos.iter().map(|t| t.title.as_str()).collect();
            assert_eq!(titles, vec!["A", "B", "C", "D", "E"]);
        }
        other => panic!("not a listing: {:?}", other),
    }
}

#[test]
fn no_second_exchange_while_one_is_under_way() {
    let mut db = ready();
    run_of(db.create(":A", "description", "a"));
    assert_eq!(failed_with(db.create(":B", "description", "b")), DbError::Protocol);
    assert_eq!(failed_with(db.get("")), DbError::Protocol);
    assert_eq!(db.phase(), Phase::Running(Kind::Create));
    assert_eq!(pull_of(db.advance(Reply::Success(vec![]))), PULL_ONE);
    assert_eq!(failed_with(db.delete("")), DbError::Protocol);
    assert_eq!(failed_with(db.update("", ":x")), DbError::Protocol);
    assert_eq!(failed_with(db.login("a", "b")), DbError::Protocol);
    assert_eq!(db.phase(), Phase::Pulling(Kind::Create));
    assert!(matches!(db.advance(Reply::Success(vec![])), Step::Finished(Output::Done)));
    run_of(db.create(":B", "description", "b"));
}

#[test]
fn no_command_while_the_login_is_under_way() {
    let mut db = fresh();
    db.login("a", "b");
    assert_eq!(failed_with(db.get("")), DbError::Protocol);
    assert_eq!(failed_with(db.login("a", "b")), DbError::Protocol);
    assert_eq!(db.phase(), Phase::LoggingIn);
}

#[test]
fn failed_query_of_a_read_is_a_protocol_error() {
    let mut db = ready();
    db.get(":A");
    assert_eq!(failed_with(db.advance(Reply::Failure)), DbError::Protocol);
    assert_eq!(db.phase(), Phase::Ready);
    db.get(":A");
    db.advance(Reply::Success(vec![]));
    assert_eq!(failed_with(db.advance(Reply::Failure)), DbError::Protocol);
    assert_eq!(db.phase(), Phase::Ready);
}

#[test]
fn failed_writes_are_write_errors() {
    let mut db = ready();
    db.create(":A", "description", "a");
    assert_eq!(failed_with(db.advance(Reply::Failure)), DbError::Write);
    db.update(":A", ":b");
    db.advance(Reply::Success(vec![]));
    assert_eq!(failed_with(db.advance(Reply::Failure)), DbError::Write);
    db.delete(":A");
    assert_eq!(failed_with(db.advance(Reply::Failure)), DbError::Write);
    assert_eq!(db.phase(), Phase::Ready);
    assert_eq!(DbError::Write.message(), "Write error");
}

#[test]
fn broken_connection_fails_the_operation_and_closes() {
    let mut db = ready();
    db.get("");
    assert_eq!(failed_with(db.advance(Reply::Severed)), DbError::Protocol);
    assert_eq!(db.phase(), Phase::Closed);

    let mut db = ready();
    db.create(":A", "description", "a");
    db.advance(Reply::Success(vec![]));
    assert_eq!(failed_with(db.advance(Reply::Severed)), DbError::Write);
    assert_eq!(db.phase(), Phase::Closed);
    assert_eq!(failed_with(db.get("")), DbError::Connect);
    assert_eq!(failed_with(db.login("a", "b")), DbError::Connect);
    assert_eq!(DbError::Connect.message(), "Could not connect to database");
}

#[test]
fn read_of_a_record_without_a_node_reports_it_and_returns_the_rest() {
    let mut db = ready();
    db.get("");
    db.advance(Reply::Success(vec![]));
    let records = vec![
        entry_record("A", "a"),
        Record { fields: vec![Field::Scalar(Value::Null)] },
        Record { fields: vec![] },
        entry_record("B", "b"),
    ];
    match db.advance(Reply::Success(records)) {
        Step::Finished(Output::Listing(listing)) => {
            let titles: Vec<&str> = listing.todos.iter().map(|t| t.title.as_str()).collect();
            assert_eq!(titles, vec!["A", "B"]);
            let rows: Vec<usize> = listing.rejected.iter().map(|r| r.row).collect();
            assert_eq!(rows, vec![1, 2]);
        }
        other => panic!("not a listing: {:?}", other),
    }
    assert_eq!(db.phase(), Phase::Ready);
    assert_eq!(DbError::Protocol.message(), "Protocol error");
}

#[test]
fn read_reports_nodes_that_are_no_entries() {
    let mut db = ready();
    db.get("");
    db.advance(Reply::Success(vec![]));
    let nameless = Record {
        fields: vec![Field::Node(Node { labels: vec![], properties: PropertyMap::new() })],
    };
    match db.advance(Reply::Success(vec![nameless, entry_record("A", "a")])) {
        Step::Finished(Output::Listing(listing)) => {
            assert_eq!(listing.todos.len(), 1);
            assert_eq!(listing.rejected.len(), 1);
            assert_eq!(listing.rejected[0].row, 0);
        }
        other => panic!("not a listing: {:?}", other),
    }
}

#[test]
fn reply_that_nothing_waits_for_is_a_protocol_error() {
    let mut db = fresh();
    assert_eq!(failed_with(db.advance(Reply::Success(vec![]))), DbError::Protocol);
    assert_eq!(db.phase(), Phase::Unauthenticated);
    let mut db = ready();
    assert_eq!(failed_with(db.advance(Reply::Failure)), DbError::Protocol);
    assert_eq!(failed_with(db.advance(Reply::Severed)), DbError::Protocol);
    assert_eq!(db.phase(), Phase::Ready);
}

#[test]
fn close_says_goodbye_once() {
    let mut db = ready();
    assert!(matches!(db.close(), Some(Request::Goodbye)));
    assert_eq!(db.phase(), Phase::Closed);
    assert!(db.close().is_none());
    assert_eq!(db.phase(), Phase::Closed);
    assert_eq!(failed_with(db.get("")), DbError::Connect);
}

#[test]
fn close_before_login_has_nothing_to_send() {
    let mut db = fresh();
    assert!(db.close().is_none());
    assert_eq!(db.phase(), Phase::Closed);
    assert_eq!(failed_with(db.login("a", "b")), DbError::Connect);
}

#[test]
fn close_waits_for_the_exchange_to_end() {
    let mut db = ready();
    db.get("");
    assert!(db.close().is_none());
    assert_eq!(db.phase(), Phase::Running(Kind::Get));
    db.advance(Reply::Success(vec![]));
    assert!(db.close().is_none());
    assert_eq!(db.phase(), Phase::Pulling(Kind::Get));
    db.advance(Reply::Success(vec![]));
    assert!(matches!(db.close(), Some(Request::Goodbye)));
}

#[test]
fn handshake_error_has_its_message() {
    assert_eq!(DbError::Handshake.message(), "No protocol version in common");
}

fn kind_of(step: &Step) -> &'static str {
    match step {
        Step::Send(Request::Hello { .. }) => "hello",
        Step::Send(Request::Run { .. }) => "run",
        Step::Send(Request::Pull { .. }) => "pull",
        Step::Send(Request::Goodbye) => "goodbye",
        Step::Finished(_) => "finished",
        Step::Failed(_) => "failed",
    }
}

#[test]
fn requests_of_a_whole_session_go_out_in_order() {
    let mut db = fresh();
    let mut wire = Vec::new();
    let mut note = |step: Step| {
        if let Step::Send(_) = step {
            wire.push(kind_of(&step));
        }
    };
    note(db.get(""));
    note(db.login("neo4j", "secret"));
    note(db.login("neo4j", "secret"));
    note(db.advance(Reply::Success(vec![])));
    note(db.create(":A", "description", "a"));
    note(db.get(""));
    note(db.advance(Reply::Success(vec![])));
    note(db.delete(""));
    note(db.advance(Reply::Success(vec![])));
    note(db.get(":A"));
    note(db.advance(Reply::Failure));
    note(db.update(":A", ":b"));
    note(db.advance(Reply::Success(vec![])));
    note(db.advance(Reply::Success(vec![])));
    if let Some(request) = db.close() {
        note(Step::Send(request));
    }
    note(db.get(""));
    if let Some(request) = db.close() {
        note(Step::Send(request));
    }
    assert_eq!(wire, vec!["hello", "run", "pull", "run", "run", "pull", "goodbye"]);
}
