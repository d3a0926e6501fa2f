//! The session with the database, as a state machine.
//!
//! A session speaks to one server over one connection, one exchange at a
//! time. [`Db`] holds what the session knows of itself and decides what is
//! sent next; it sends nothing itself. A caller asks for an operation and
//! gets a [`Step`]: a request to perform, or the operation's end. It
//! performs the request, hands the server's reply to [`Db::advance`], and
//! goes on until the step is an end.

use vstd::prelude::*;
use bolt_client::{Metadata, Params};
use crate::api::{listing_of, Listing, ListingView};
use crate::bolt::{
    lemma_integers_as_map_push, lemma_texts_as_map_push, metadata_entries, metadata_of_integers,
    metadata_of_texts, params_entries, params_of_texts,
};
use crate::node::{records_view, Record, RecordView};
use crate::query::{
    create_query, create_text, delete_query, delete_text, match_query, match_text, update_query,
    update_text, value_parameter,
};
use crate::value::ValueView;

verus! {

/// Version 4.0 of the protocol, as the handshake writes it.
pub const V4_0: u32 = 0x0004;

/// The size of a pull that asks for every record that is left.
pub const ALL_RECORDS: i64 = -1;

/// How an operation of the session fails.
#[derive(Debug, Clone, Copy, PartialEq, Eq, Structural)]
pub enum DbError {
    /// The server could not be reached, or the session is closed.
    Connect,
    /// The server accepts none of the protocol versions on offer.
    Handshake,
    /// The login was not acknowledged, or has not taken place.
    Auth,
    /// A reply is not what the exchange calls for.
    Protocol,
    /// A create, update or delete did not go through.
    Write,
}

/// The words in which an error is reported.
pub open spec fn message_text(error: DbError) -> Seq<char> {
    match error {
        DbError::Connect => "Could not connect to database"@,
        DbError::Handshake => "No protocol version in common"@,
        DbError::Auth => "Login error"@,
        DbError::Protocol => "Protocol error"@,
        DbError::Write => "Write error"@,
    }
}

impl DbError {
    /// The words in which the error is reported.
    pub fn message(&self) -> (text: &'static str)
        ensures
            text@ == message_text(*self),
    {
        match self {
            DbError::Connect => "Could not connect to database",
            DbError::Handshake => "No protocol version in common",
            DbError::Auth => "Login error",
            DbError::Protocol => "Protocol error",
            DbError::Write => "Write error",
        }
    }
}

/// The operations that run a query.
#[derive(Debug, Clone, Copy, PartialEq, Eq, Structural)]
pub enum Kind {
    Create,
    Get,
    Update,
    Delete,
}

/// Where a session stands.
#[derive(Debug, Clone, Copy, PartialEq, Eq, Structural)]
pub enum Phase {
    /// A protocol version is agreed on; nobody has logged in.
    Unauthenticated,
    /// The login is sent and not answered yet.
    LoggingIn,
    /// Logged in, with no exchange under way.
    Ready,
    /// The query of an operation is sent and not answered yet.
    Running(Kind),
    /// The query was accepted; its records are asked for and not there yet.
    Pulling(Kind),
    /// Nothing more can be sent.
    Closed,
}

/// How the attempt to reach the server ended.
#[derive(Debug, Clone, Copy, PartialEq, Eq, Structural)]
pub enum Handshake {
    /// No connection came about.
    Unreachable,
    /// The server's answer to the versions on offer: the version it picked,
    /// or zero if it takes none of them.
    Answered(u32),
}

/// What the session knows of itself.
pub ghost struct Session {
    pub version: u32,
    pub phase: Phase,
}

/// A session with the database.
#[derive(Debug)]
pub struct Db {
    version: u32,
    phase: Phase,
}

impl View for Db {
    type V = Session;

    closed spec fn view(&self) -> Session {
        Session { version: self.version, phase: self.phase }
    }
}

/// A message for the server.
#[derive(Debug)]
pub enum Request {
    /// Opens the session and logs in.
    Hello { metadata: Metadata },
    /// Submits a query with its parameters.
    Run { query: String, params: Params },
    /// Asks for records of the query that was run last: for as many as the
    /// metadata give under `n`, for all that are left where that is
    /// [`ALL_RECORDS`].
    Pull { metadata: Metadata },
    /// Ends the session.
    Goodbye,
}

/// The mathematical content of a [`Request`].
pub ghost enum RequestView {
    Hello { metadata: Map<Seq<char>, ValueView> },
    Run { query: Seq<char>, params: Map<Seq<char>, ValueView> },
    Pull { metadata: Map<Seq<char>, ValueView> },
    Goodbye,
}

impl View for Request {
    type V = RequestView;

    open spec fn view(&self) -> RequestView {
        match self {
            Request::Hello { metadata } => RequestView::Hello {
                metadata: metadata_entries(*metadata),
            },
            Request::Run { query, params } => RequestView::Run {
                query: query@,
                params: params_entries(*params),
            },
            Request::Pull { metadata } => RequestView::Pull {
                metadata: metadata_entries(*metadata),
            },
            Request::Goodbye => RequestView::Goodbye,
        }
    }
}

/// What came back for a request.
#[derive(Debug)]
pub enum Reply {
    /// The server acknowledged the request; before that it sent these
    /// records (none, unless records were asked for).
    Success(Vec<Record>),
    /// The server answered with anything but an acknowledgment.
    Failure,
    /// The connection broke.
    Severed,
}

/// The mathematical content of a [`Reply`].
pub ghost enum ReplyView {
    Success(Seq<RecordView>),
    Failure,
    Severed,
}

impl View for Reply {
    type V = ReplyView;

    open spec fn view(&self) -> ReplyView {
        match self {
            Reply::Success(records) => ReplyView::Success(records_view(records@)),
            Reply::Failure => ReplyView::Failure,
            Reply::Severed => ReplyView::Severed,
        }
    }
}

/// What an operation that went through gives back.
#[derive(Debug)]
pub enum Output {
    /// Nothing: a login or a write.
    Done,
    /// What a read found.
    Listing(Listing),
}

/// The mathematical content of an [`Output`].
pub ghost enum OutputView {
    Done,
    Listing(ListingView),
}

impl View for Output {
    type V = OutputView;

    open spec fn view(&self) -> OutputView {
        match self {
            Output::Done => OutputView::Done,
            Output::Listing(listing) => OutputView::Listing(listing@),
        }
    }
}

/// What the caller of the session does next.
#[derive(Debug)]
pub enum Step {
    /// Send this request, and hand the reply to [`Db::advance`].
    Send(Request),
    /// The operation went through.
    Finished(Output),
    /// The operation failed.
    Failed(DbError),
}

/// The mathematical content of a [`Step`].
pub ghost enum StepView {
    Send(RequestView),
    Finished(OutputView),
    Failed(DbError),
}

impl View for Step {
    type V = StepView;

    open spec fn view(&self) -> StepView {
        match self {
            Step::Send(request) => StepView::Send(request@),
            Step::Finished(output) => StepView::Finished(output@),
            Step::Failed(error) => StepView::Failed(*error),
        }
    }
}

/// What a caller can ask of a session.
pub ghost enum Command {
    Login { username: Seq<char>, password: Seq<char> },
    Create { label: Seq<char>, field_name: Seq<char>, value: Seq<char> },
    Get { filter: Seq<char> },
    Update { filter: Seq<char>, changes: Seq<char> },
    Delete { filter: Seq<char> },
}

/// A session after something happened to it, and the step that it gave.
pub ghost struct Transition {
    pub session: Session,
    pub step: StepView,
}

/// The versions that the handshake offers, the preferred one first. A zero
/// offers nothing.
pub open spec fn offered_versions() -> Seq<u32> {
    seq![V4_0, 0u32, 0u32, 0u32]
}

/// `version` is one of the versions on offer.
pub open spec fn acceptable(version: u32) -> bool {
    version != 0 && offered_versions().contains(version)
}

/// The metadata of a login: who speaks, how the credentials are to be read,
/// and the credentials.
pub open spec fn hello_metadata(username: Seq<char>, password: Seq<char>) -> Map<
    Seq<char>,
    ValueView,
> {
    map![
        "user_agent"@ => ValueView::String("neo4j"@),
        "scheme"@ => ValueView::String("basic"@),
        "principal"@ => ValueView::String(username),
        "credentials"@ => ValueView::String(password),
    ]
}

/// The request that opens the exchange of a command.
pub open spec fn opening_request(command: Command) -> RequestView {
    match command {
        Command::Login { username, password } => RequestView::Hello {
            metadata: hello_metadata(username, password),
        },
        Command::Create { label, field_name, value } => RequestView::Run {
            query: create_text(label, field_name),
            params: map![value_parameter() => ValueView::String(value)],
        },
        Command::Get { filter } => RequestView::Run {
            query: match_text(filter),
            params: Map::empty(),
        },
        Command::Update { filter, changes } => RequestView::Run {
            query: update_text(filter, changes),
            params: Map::empty(),
        },
        Command::Delete { filter } => RequestView::Run {
            query: delete_text(filter),
            params: Map::empty(),
        },
    }
}

/// The phase in which a session awaits the answer to the opening request of
/// a command.
pub open spec fn phase_opened(command: Command) -> Phase {
    match command {
        Command::Login { .. } => Phase::LoggingIn,
        Command::Create { .. } => Phase::Running(Kind::Create),
        Command::Get { .. } => Phase::Running(Kind::Get),
        Command::Update { .. } => Phase::Running(Kind::Update),
        Command::Delete { .. } => Phase::Running(Kind::Delete),
    }
}

/// A session in `phase` takes up `command`: a login where nobody has logged
/// in, a query where somebody has and no exchange is under way.
pub open spec fn admits(phase: Phase, command: Command) -> bool {
    match command {
        Command::Login { .. } => phase == Phase::Unauthenticated,
        _ => phase == Phase::Ready,
    }
}

/// The error with which a session in `phase` turns a command down.
pub open spec fn refusal(phase: Phase) -> DbError {
    match phase {
        Phase::Unauthenticated | Phase::Ready => DbError::Auth,
        Phase::LoggingIn | Phase::Running(_) | Phase::Pulling(_) => DbError::Protocol,
        Phase::Closed => DbError::Connect,
    }
}

/// How many records an operation asks for: one after a create, all after
/// anything else.
pub open spec fn pull_size(kind: Kind) -> i64 {
    match kind {
        Kind::Create => 1,
        _ => ALL_RECORDS,
    }
}

/// The metadata of the request for an operation's records.
pub open spec fn pull_metadata(kind: Kind) -> Map<Seq<char>, ValueView> {
    map!["n"@ => ValueView::Integer(pull_size(kind))]
}

/// The error of an operation whose exchange failed.
pub open spec fn failure_of(kind: Kind) -> DbError {
    match kind {
        Kind::Get => DbError::Protocol,
        _ => DbError::Write,
    }
}

/// The end of an operation whose records arrived. A read lists them,
/// whatever they hold; a write has nothing to tell.
pub open spec fn completion(kind: Kind, records: Seq<RecordView>) -> StepView {
    match kind {
        Kind::Get => StepView::Finished(OutputView::Listing(listing_of(records))),
        _ => StepView::Finished(OutputView::Done),
    }
}

/// What a session does with a command.
///
/// It opens the command's exchange if it admits the command. Otherwise the
/// command fails and the session stays as it is.
pub open spec fn on_command(session: Session, command: Command) -> Transition {
    if admits(session.phase, command) {
        Transition {
            session: Session { phase: phase_opened(command), ..session },
            step: StepView::Send(opening_request(command)),
        }
    } else {
        Transition { session, step: StepView::Failed(refusal(session.phase)) }
    }
}

/// What a session does with the reply to the request that it sent last.
///
/// An acknowledged login makes the session ready; any other answer to a
/// login closes it. An acknowledged query is followed by the request for
/// its records, and their arrival ends the operation. A failure ends the
/// operation and leaves the session ready; a broken connection ends the
/// operation and closes the session. A reply that nothing waits for is a
/// protocol error.
pub open spec fn on_reply(session: Session, reply: ReplyView) -> Transition {
    match session.phase {
        Phase::LoggingIn => match reply {
            ReplyView::Success(_) => Transition {
                session: Session { phase: Phase::Ready, ..session },
                step: StepView::Finished(OutputView::Done),
            },
            _ => Transition {
                session: Session { phase: Phase::Closed, ..session },
                step: StepView::Failed(DbError::Auth),
            },
        },
        Phase::Running(kind) => match reply {
            ReplyView::Success(_) => Transition {
                session: Session { phase: Phase::Pulling(kind), ..session },
                step: StepView::Send(RequestView::Pull { metadata: pull_metadata(kind) }),
            },
            ReplyView::Failure => Transition {
                session: Session { phase: Phase::Ready, ..session },
                step: StepView::Failed(failure_of(kind)),
            },
            ReplyView::Severed => Transition {
                session: Session { phase: Phase::Closed, ..session },
                step: StepView::Failed(failure_of(kind)),
            },
        },
        Phase::Pulling(kind) => match reply {
            ReplyView::Success(records) => Transition {
                session: Session { phase: Phase::Ready, ..session },
                step: completion(kind, records),
            },
            ReplyView::Failure => Transition {
                session: Session { phase: Phase::Ready, ..session },
                step: StepView::Failed(failure_of(kind)),
            },
            ReplyView::Severed => Transition {
                session: Session { phase: Phase::Closed, ..session },
                step: StepView::Failed(failure_of(kind)),
            },
        },
        _ => Transition { session, step: StepView::Failed(DbError::Protocol) },
    }
}

/// The request with which a session in `phase` takes its leave, if it has
/// one to send: a goodbye, where somebody has logged in and no exchange is
/// under way.
pub open spec fn farewell(phase: Phase) -> Option<RequestView> {
    if phase == Phase::Ready {
        Some(RequestView::Goodbye)
    } else {
        None
    }
}

/// The phase of a session after it was asked to close. A session that
/// awaits a reply stays as it is: its exchange has to end first.
pub open spec fn phase_closed(phase: Phase) -> Phase {
    match phase {
        Phase::Unauthenticated | Phase::Ready | Phase::Closed => Phase::Closed,
        _ => phase,
    }
}

/// The content of an optional request.
pub open spec fn optional_request_view(request: Option<Request>) -> Option<RequestView> {
    match request {
        Some(request) => Some(request@),
        None => None,
    }
}

/// The session that a handshake opens, or the error that it ends in.
pub open spec fn opened(handshake: Handshake) -> Result<Session, DbError> {
    match handshake {
        Handshake::Unreachable => Err(DbError::Connect),
        Handshake::Answered(version) => if acceptable(version) {
            Ok(Session { version, phase: Phase::Unauthenticated })
        } else {
            Err(DbError::Handshake)
        },
    }
}

/// The content of a session that may have failed to open.
pub open spec fn opened_view(outcome: Result<Db, DbError>) -> Result<Session, DbError> {
    match outcome {
        Ok(db) => Ok(db@),
        Err(error) => Err(error),
    }
}

/// The versions that the handshake offers, the preferred one first.
pub fn versions_on_offer() -> (versions: [u32; 4])
    ensures
        versions@ == offered_versions(),
{
    let versions: [u32; 4] = [V4_0, 0, 0, 0];
    assert(versions@ =~= offered_versions());
    versions
}

/// The error with which a session in `phase` turns a command down.
fn refuse(phase: Phase) -> (error: DbError)
    ensures
        error == refusal(phase),
{
    match phase {
        Phase::Unauthenticated | Phase::Ready => DbError::Auth,
        Phase::LoggingIn | Phase::Running(_) | Phase::Pulling(_) => DbError::Protocol,
        Phase::Closed => DbError::Connect,
    }
}

/// The error of an operation whose exchange failed.
fn failure(kind: Kind) -> (error: DbError)
    ensures
        error == failure_of(kind),
{
    match kind {
        Kind::Get => DbError::Protocol,
        _ => DbError::Write,
    }
}

/// The parameters of a query that binds none.
fn no_params() -> (params: Params)
    ensures
        params_entries(params) == Map::<Seq<char>, ValueView>::empty(),
{
    let pairs: Vec<(String, String)> = Vec::new();
    assert(pairs@ == Seq::<(String, String)>::empty());
    params_of_texts(pairs)
}

/// Writes the metadata of [`hello_metadata`].
fn hello(username: &str, password: &str) -> (metadata: Metadata)
    ensures
        metadata_entries(metadata) == hello_metadata(username@, password@),
{
    let mut pairs: Vec<(String, String)> = Vec::new();
    let ghost none = pairs@;
    pairs.push((String::from_str("user_agent"), String::from_str("neo4j")));
    let ghost one = pairs@;
    pairs.push((String::from_str("scheme"), String::from_str("basic")));
    let ghost two = pairs@;
    pairs.push((String::from_str("principal"), String::from_str(username)));
    let ghost three = pairs@;
    pairs.push((String::from_str("credentials"), String::from_str(password)));
    proof {
        lemma_texts_as_map_push(none, one[0]);
        lemma_texts_as_map_push(one, two[1]);
        lemma_texts_as_map_push(two, three[2]);
        lemma_texts_as_map_push(three, pairs@[3]);
        assert(one == none.push(one[0]));
        assert(two == one.push(two[1]));
        assert(three == two.push(three[2]));
        assert(pairs@ == three.push(pairs@[3]));
        reveal_strlit("user_agent");
        reveal_strlit("scheme");
        reveal_strlit("principal");
        reveal_strlit("credentials");
        assert(pairs@[0].0@.len() == 10);
        assert(pairs@[1].0@.len() == 6);
        assert(pairs@[2].0@.len() == 9);
        assert(pairs@[3].0@.len() == 11);
    }
    metadata_of_texts(pairs)
}

/// Writes the parameters that bind `value` to the name of
/// [`value_parameter`].
fn value_params(value: &str) -> (params: Params)
    ensures
        params_entries(params) == map![value_parameter() => ValueView::String(value@)],
{
    let mut pairs: Vec<(String, String)> = Vec::new();
    pairs.push((String::from_str("value"), String::from_str(value)));
    proof {
        lemma_texts_as_map_push(Seq::empty(), pairs@[0]);
        assert(pairs@ == Seq::<(String, String)>::empty().push(pairs@[0]));
    }
    params_of_texts(pairs)
}

/// Writes the metadata of [`pull_metadata`].
fn pull(kind: Kind) -> (metadata: Metadata)
    ensures
        metadata_entries(metadata) == pull_metadata(kind),
{
    let n: i64 = match kind {
        Kind::Create => 1,
        _ => ALL_RECORDS,
    };
    let mut pairs: Vec<(String, i64)> = Vec::new();
    pairs.push((String::from_str("n"), n));
    proof {
        lemma_integers_as_map_push(Seq::empty(), pairs@[0]);
        assert(pairs@ == Seq::<(String, i64)>::empty().push(pairs@[0]));
    }
    metadata_of_integers(pairs)
}

impl Db {
    #[verifier::type_invariant]
    spec fn well_formed(self) -> bool {
        acceptable(self.version)
    }

    /// Opens a session on the outcome of the handshake.
    ///
    /// There is a session only where the server picked one of the versions
    /// on offer; nobody has logged in to it yet.
    pub fn new(handshake: Handshake) -> (outcome: Result<Db, DbError>)
        ensures
            opened_view(outcome) == opened(handshake),
    {
        match handshake {
            Handshake::Unreachable => Err(DbError::Connect),
            Handshake::Answered(version) => {
                let offered = versions_on_offer();
                let mut i: usize = 0;
                while i < 4
                    invariant
                        0 <= i <= 4,
                        handshake == Handshake::Answered(version),
                        offered@ == offered_versions(),
                        forall|j: int| 0 <= j < i ==> offered@[j] != version || version == 0,
                    decreases 4 - i,
                {
                    if version != 0 && offered[i] == version {
                        assert(offered_versions().contains(version)) by {
                            assert(offered_versions()[i as int] == version);
                        }
                        return Ok(Db { version, phase: Phase::Unauthenticated });
                    }
                    i += 1;
                }
                Err(DbError::Handshake)
            },
        }
    }

    /// The protocol version that the session speaks.
    pub fn version(&self) -> (version: u32)
        ensures
            version == self@.version,
            acceptable(version),
    {
        proof {
            use_type_invariant(self);
        }
        self.version
    }

    /// Where the session stands.
    pub fn phase(&self) -> (phase: Phase)
        ensures
            phase == self@.phase,
    {
        self.phase
    }

    /// Logs in with a name and a password.
    ///
    /// The step is the login request, unless the session is past logging
    /// in. The login went through if the step after the reply is
    /// [`Step::Finished`].
    pub fn login(&mut self, username: &str, password: &str) -> (step: Step)
        ensures
            final(self)@ == on_command(
                old(self)@,
                Command::Login { username: username@, password: password@ },
            ).session,
            step@ == on_command(
                old(self)@,
                Command::Login { username: username@, password: password@ },
            ).step,
    {
        proof {
            use_type_invariant(&*self);
        }
        if self.phase == Phase::Unauthenticated {
            let metadata = hello(username, password);
            self.phase = Phase::LoggingIn;
            Step::Send(Request::Hello { metadata })
        } else {
            Step::Failed(refuse(self.phase))
        }
    }

    /// Creates a node with the label clause `label` and one field, named
    /// `field_name`, that holds `value`.
    pub fn create(&mut self, label: &str, field_name: &str, value: &str) -> (step: Step)
        ensures
            final(self)@ == on_command(
                old(self)@,
                Command::Create { label: label@, field_name: field_name@, value: value@ },
            ).session,
            step@ == on_command(
                old(self)@,
                Command::Create { label: label@, field_name: field_name@, value: value@ },
            ).step,
    {
        proof {
            use_type_invariant(&*self);
        }
        if self.phase == Phase::Ready {
            let params = value_params(value);
            self.phase = Phase::Running(Kind::Create);
            Step::Send(Request::Run { query: create_query(label, field_name), params })
        } else {
            Step::Failed(refuse(self.phase))
        }
    }

    /// Reads the nodes that match `filter`: all nodes where it is empty.
    pub fn get(&mut self, filter: &str) -> (step: Step)
        ensures
            final(self)@ == on_command(old(self)@, Command::Get { filter: filter@ }).session,
            step@ == on_command(old(self)@, Command::Get { filter: filter@ }).step,
    {
        proof {
            use_type_invariant(&*self);
        }
        if self.phase == Phase::Ready {
            self.phase = Phase::Running(Kind::Get);
            Step::Send(Request::Run { query: match_query(filter), params: no_params() })
        } else {
            Step::Failed(refuse(self.phase))
        }
    }

    /// Applies `changes` to the nodes that match `filter`.
    pub fn update(&mut self, filter: &str, changes: &str) -> (step: Step)
        ensures
            final(self)@ == on_command(
                old(self)@,
                Command::Update { filter: filter@, changes: changes@ },
            ).session,
            step@ == on_command(
                old(self)@,
                Command::Update { filter: filter@, changes: changes@ },
            ).step,
    {
        proof {
            use_type_invariant(&*self);
        }
        if self.phase == Phase::Ready {
            self.phase = Phase::Running(Kind::Update);
            Step::Send(
                Request::Run { query: update_query(filter, changes), params: no_params() },
            )
        } else {
            Step::Failed(refuse(self.phase))
        }
    }

    /// Deletes the nodes that match `filter`.
    pub fn delete(&mut self, filter: &str) -> (step: Step)
        ensures
            final(self)@ == on_command(old(self)@, Command::Delete { filter: filter@ }).session,
            step@ == on_command(old(self)@, Command::Delete { filter: filter@ }).step,
    {
        proof {
            use_type_invariant(&*self);
        }
        if self.phase == Phase::Ready {
            self.phase = Phase::Running(Kind::Delete);
            Step::Send(Request::Run { query: delete_query(filter), params: no_params() })
        } else {
            Step::Failed(refuse(self.phase))
        }
    }

    /// Takes the reply to the request that was sent last, and says how the
    /// operation goes on.
    pub fn advance(&mut self, reply: Reply) -> (step: Step)
        ensures
            final(self)@ == on_reply(old(self)@, reply@).session,
            step@ == on_reply(old(self)@, reply@).step,
    {
        proof {
            use_type_invariant(&*self);
        }
        match self.phase {
            Phase::LoggingIn => match reply {
                Reply::Success(_) => {
                    self.phase = Phase::Ready;
                    Step::Finished(Output::Done)
                },
                _ => {
                    self.phase = Phase::Closed;
                    Step::Failed(DbError::Auth)
                },
            },
            Phase::Running(kind) => match reply {
                Reply::Success(_) => {
                    self.phase = Phase::Pulling(kind);
                    Step::Send(Request::Pull { metadata: pull(kind) })
                },
                Reply::Failure => {
                    self.phase = Phase::Ready;
                    Step::Failed(failure(kind))
                },
                Reply::Severed => {
                    self.phase = Phase::Closed;
                    Step::Failed(failure(kind))
                },
            },
            Phase::Pulling(kind) => match reply {
                Reply::Success(records) => {
                    self.phase = Phase::Ready;
                    match kind {
                        Kind::Get => Step::Finished(
                            Output::Listing(Listing::from_records(&records)),
                        ),
                        _ => Step::Finished(Output::Done),
                    }
                },
                Reply::Failure => {
                    self.phase = Phase::Ready;
                    Step::Failed(failure(kind))
                },
                Reply::Severed => {
                    self.phase = Phase::Closed;
                    Step::Failed(failure(kind))
                },
            },
            _ => Step::Failed(DbError::Protocol),
        }
    }

    /// Closes the session, and gives the goodbye to send if there is one.
    ///
    /// A session closes once. While it awaits a reply it does not close:
    /// the exchange has to end first.
    pub fn close(&mut self) -> (request: Option<Request>)
        ensures
            final(self)@.version == old(self)@.version,
            final(self)@.phase == phase_closed(old(self)@.phase),
            optional_request_view(request) == farewell(old(self)@.phase),
    {
        proof {
            use_type_invariant(&*self);
        }
        match self.phase {
            Phase::Ready => {
                self.phase = Phase::Closed;
                Some(Request::Goodbye)
            },
            Phase::Unauthenticated => {
                self.phase = Phase::Closed;
                None
            },
            _ => None,
        }
    }
}

} // verus!
