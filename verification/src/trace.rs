//! What holds of every run of a session.
//!
//! A run is a sequence of events: commands that callers give, replies that
//! come back, and requests to close. The wire of a run is the sequence of
//! requests that the session hands out along it.

use vstd::prelude::*;
use crate::db::{
    completion, farewell, on_command, on_reply, opening_request, phase_closed, pull_metadata,
    Command, DbError, Kind, OutputView, Phase, ReplyView, RequestView, Session, StepView,
    Transition,
};
use crate::node::RecordView;

verus! {

/// Something that happens to a session.
pub ghost enum Event {
    /// A caller gives a command.
    Ask(Command),
    /// The reply to the request that was sent last comes in.
    Answer(ReplyView),
    /// The session is asked to close.
    Close,
}

/// The request in a step, if it holds one.
pub open spec fn request_in(step: StepView) -> Option<RequestView> {
    match step {
        StepView::Send(request) => Some(request),
        _ => None,
    }
}

/// The session after an event.
pub open spec fn after(session: Session, event: Event) -> Session {
    match event {
        Event::Ask(command) => on_command(session, command).session,
        Event::Answer(reply) => on_reply(session, reply).session,
        Event::Close => Session { phase: phase_closed(session.phase), ..session },
    }
}

/// The request that the session hands out on an event, if any.
pub open spec fn sent(session: Session, event: Event) -> Option<RequestView> {
    match event {
        Event::Ask(command) => request_in(on_command(session, command).step),
        Event::Answer(reply) => request_in(on_reply(session, reply).step),
        Event::Close => farewell(session.phase),
    }
}

/// The session after a run.
pub open spec fn after_all(session: Session, events: Seq<Event>) -> Session
    decreases events.len(),
{
    if events.len() == 0 {
        session
    } else {
        after(after_all(session, events.drop_last()), events.last())
    }
}

/// The wire of a run.
pub open spec fn wire(session: Session, events: Seq<Event>) -> Seq<RequestView>
    decreases events.len(),
{
    if events.len() == 0 {
        Seq::empty()
    } else {
        let earlier = wire(session, events.drop_last());
        match sent(after_all(session, events.drop_last()), events.last()) {
            Some(request) => earlier.push(request),
            None => earlier,
        }
    }
}

/// The request before place `i` of a wire, if `i` is not the first place.
pub open spec fn before(wire: Seq<RequestView>, i: int) -> Option<RequestView> {
    if i == 0 {
        None
    } else {
        Some(wire[i - 1])
    }
}

/// `request` may stand on a wire right behind `before`.
///
/// A login opens the wire. A query follows a login, another query or a
/// request for records. A request for records follows its query at once. A
/// goodbye follows anything but a goodbye, and nothing follows it.
pub open spec fn may_follow(before: Option<RequestView>, request: RequestView) -> bool {
    match request {
        RequestView::Hello { .. } => before is None,
        RequestView::Run { .. } => before matches Some(earlier) && !(earlier is Goodbye),
        RequestView::Pull { .. } => before matches Some(earlier) && earlier is Run,
        RequestView::Goodbye => before matches Some(earlier) && !(earlier is Goodbye),
    }
}

/// Each request of the wire may follow the one before it.
pub open spec fn in_order(wire: Seq<RequestView>) -> bool {
    forall|i: int| 0 <= i < wire.len() ==> may_follow(before(wire, i), #[trigger] wire[i])
}

/// The last request of a wire is what a session in `phase` has sent last.
spec fn agrees(phase: Phase, wire: Seq<RequestView>) -> bool {
    match phase {
        Phase::Unauthenticated => wire.len() == 0,
        Phase::LoggingIn => wire.len() > 0 && wire.last() is Hello,
        Phase::Ready => wire.len() > 0 && !(wire.last() is Goodbye),
        Phase::Running(_) => wire.len() > 0 && wire.last() is Run,
        Phase::Pulling(_) => wire.len() > 0 && wire.last() is Pull,
        Phase::Closed => true,
    }
}

/// Along every run the wire stays in order, and its last request is what
/// the session has sent last.
proof fn lemma_wire_agrees(session: Session, events: Seq<Event>)
    requires
        session.phase == Phase::Unauthenticated,
    ensures
        in_order(wire(session, events)),
        agrees(after_all(session, events).phase, wire(session, events)),
    decreases events.len(),
{
    if events.len() > 0 {
        let earlier_events = events.drop_last();
        lemma_wire_agrees(session, earlier_events);
        let earlier = wire(session, earlier_events);
        let now = wire(session, events);
        match sent(after_all(session, earlier_events), events.last()) {
            Some(request) => {
                assert(now == earlier.push(request));
                assert forall|i: int| 0 <= i < now.len() implies may_follow(
                    before(now, i),
                    #[trigger] now[i],
                ) by {
                    if i < earlier.len() {
                        assert(now[i] == earlier[i]);
                        assert(before(now, i) == before(earlier, i));
                    }
                }
            },
            None => {},
        }
    }
}

/// Along every run of a session that starts before the login, the requests
/// go out in order: the login first and once, each request for records
/// right behind the query that it belongs to, with no request of another
/// operation in between, and nothing after the goodbye.
pub proof fn lemma_requests_go_out_in_order(session: Session, events: Seq<Event>)
    requires
        session.phase == Phase::Unauthenticated,
    ensures
        in_order(wire(session, events)),
{
    lemma_wire_agrees(session, events);
}

/// A session says goodbye at most once, and sends nothing after it.
pub proof fn lemma_goodbye_ends_the_wire(session: Session, events: Seq<Event>, i: int)
    requires
        session.phase == Phase::Unauthenticated,
        0 <= i < wire(session, events).len(),
        wire(session, events)[i] is Goodbye,
    ensures
        i == wire(session, events).len() - 1,
{
    lemma_wire_agrees(session, events);
    let w = wire(session, events);
    if i + 1 < w.len() {
        assert(may_follow(before(w, i + 1), w[i + 1]));
    }
}

/// No query goes out before the login: whatever a session sends, it sends
/// the login first.
pub proof fn lemma_login_opens_the_wire(session: Session, events: Seq<Event>)
    requires
        session.phase == Phase::Unauthenticated,
        wire(session, events).len() > 0,
    ensures
        wire(session, events)[0] is Hello,
{
    lemma_wire_agrees(session, events);
    let w = wire(session, events);
    assert(may_follow(before(w, 0), w[0]));
}

/// The session awaits the reply to a request.
pub open spec fn awaits_reply(phase: Phase) -> bool {
    phase is LoggingIn || phase is Running || phase is Pulling
}

/// While a session awaits a reply, its connection belongs to the exchange
/// under way: a command that comes in meanwhile fails without a request
/// going out, a request to close goes unheeded, and the session stays as it
/// is.
pub proof fn lemma_exchange_is_undisturbed(session: Session, command: Command)
    requires
        awaits_reply(session.phase),
    ensures
        on_command(session, command) == (Transition {
            session,
            step: StepView::Failed(DbError::Protocol),
        }),
        sent(session, Event::Ask(command)) is None,
        sent(session, Event::Close) is None,
        after(session, Event::Close) == session,
{
}

/// A session that is closed sends nothing more and stays closed.
pub proof fn lemma_closed_is_final(session: Session, events: Seq<Event>)
    requires
        session.phase == Phase::Closed,
    ensures
        after_all(session, events) == session,
        wire(session, events).len() == 0,
    decreases events.len(),
{
    if events.len() > 0 {
        lemma_closed_is_final(session, events.drop_last());
    }
}

/// The kind of the operation that a command asks for, if it asks for a
/// query.
pub open spec fn kind_of(command: Command) -> Option<Kind> {
    match command {
        Command::Login { .. } => None,
        Command::Create { .. } => Some(Kind::Create),
        Command::Get { .. } => Some(Kind::Get),
        Command::Update { .. } => Some(Kind::Update),
        Command::Delete { .. } => Some(Kind::Delete),
    }
}

/// An exchange that goes through: the command, the acknowledgment of its
/// query, and the arrival of `records`. The result is the session after the
/// exchange and the step that ends it.
pub open spec fn carried_through(
    session: Session,
    command: Command,
    records: Seq<RecordView>,
) -> Transition {
    let asked = on_command(session, command);
    let accepted = on_reply(asked.session, ReplyView::Success(Seq::empty()));
    on_reply(accepted.session, ReplyView::Success(records))
}

/// An operation that a ready session takes up, and that the server answers
/// as it should, comes to its end and leaves the session ready for the
/// next. A read ends in a listing, whatever the records hold.
pub proof fn lemma_exchange_goes_through(
    session: Session,
    command: Command,
    records: Seq<RecordView>,
)
    requires
        session.phase == Phase::Ready,
        kind_of(command) is Some,
    ensures
        carried_through(session, command, records).session == session,
        carried_through(session, command, records).step == completion(
            kind_of(command)->Some_0,
            records,
        ),
        carried_through(session, command, records).step is Finished,
        kind_of(command) != Some(Kind::Get) ==> carried_through(session, command, records).step
            == StepView::Finished(OutputView::Done),
{
}

/// The three events of an operation that goes through: the command, the
/// acknowledgment of its query, and the arrival of `records`.
pub open spec fn exchange(command: Command, records: Seq<RecordView>) -> Seq<Event> {
    seq![
        Event::Ask(command),
        Event::Answer(ReplyView::Success(Seq::empty())),
        Event::Answer(ReplyView::Success(records)),
    ]
}

/// The two requests of an operation: its query, and the request for the
/// query's records.
pub open spec fn requests_of(command: Command) -> Seq<RequestView> {
    seq![
        opening_request(command),
        RequestView::Pull { metadata: pull_metadata(kind_of(command)->Some_0) },
    ]
}

/// Every command asks for a query.
pub open spec fn all_queries(commands: Seq<Command>) -> bool {
    forall|i: int| 0 <= i < commands.len() ==> kind_of(#[trigger] commands[i]) is Some
}

/// The run in which the operations of `commands` go through one after
/// another, each holding the connection from its command to its records.
/// The server answers the operation at place `i` with `answers[i]`.
pub open spec fn in_turn(commands: Seq<Command>, answers: Seq<Seq<RecordView>>) -> Seq<Event>
    decreases commands.len(),
{
    if commands.len() == 0 || answers.len() != commands.len() {
        Seq::empty()
    } else {
        in_turn(commands.drop_last(), answers.drop_last()) + exchange(
            commands.last(),
            answers.last(),
        )
    }
}

/// The requests of the operations of `commands`, one operation after
/// another.
pub open spec fn requests_in_turn(commands: Seq<Command>) -> Seq<RequestView>
    decreases commands.len(),
{
    if commands.len() == 0 {
        Seq::empty()
    } else {
        requests_in_turn(commands.drop_last()) + requests_of(commands.last())
    }
}

/// One more event at the end of a run.
pub proof fn lemma_one_more_event(session: Session, events: Seq<Event>, event: Event)
    ensures
        after_all(session, events.push(event)) == after(after_all(session, events), event),
        wire(session, events.push(event)) == match sent(after_all(session, events), event) {
            Some(request) => wire(session, events).push(request),
            None => wire(session, events),
        },
{
    assert(events.push(event).drop_last() == events);
}

/// A run in two parts: the second part goes on from the session that the
/// first part leaves, and its requests come behind those of the first.
pub proof fn lemma_runs_append(session: Session, first: Seq<Event>, second: Seq<Event>)
    ensures
        after_all(session, first + second) == after_all(after_all(session, first), second),
        wire(session, first + second) == wire(session, first) + wire(
            after_all(session, first),
            second,
        ),
    decreases second.len(),
{
    if second.len() == 0 {
        assert(first + second == first);
        assert(wire(after_all(session, first), second) == Seq::<RequestView>::empty());
    } else {
        let shorter = second.drop_last();
        lemma_runs_append(session, first, shorter);
        assert(first + second == (first + shorter).push(second.last()));
        assert(second == shorter.push(second.last()));
        lemma_one_more_event(session, first + shorter, second.last());
        lemma_one_more_event(after_all(session, first), shorter, second.last());
    }
}

/// An operation that goes through puts its query and the request for its
/// records on the wire, one right behind the other, and leaves the session
/// as it was.
pub proof fn lemma_exchange_on_the_wire(
    session: Session,
    command: Command,
    records: Seq<RecordView>,
)
    requires
        session.phase == Phase::Ready,
        kind_of(command) is Some,
    ensures
        after_all(session, exchange(command, records)) == session,
        wire(session, exchange(command, records)) == requests_of(command),
{
    let events = exchange(command, records);
    let none = Seq::<Event>::empty();
    let one = none.push(events[0]);
    let two = one.push(events[1]);
    assert(two.push(events[2]) == events);
    assert(wire(session, none) == Seq::<RequestView>::empty());
    lemma_one_more_event(session, none, events[0]);
    lemma_one_more_event(session, one, events[1]);
    lemma_one_more_event(session, two, events[2]);
}

/// Any number of operations that take their turn on a ready session all go
/// through: each ends as its records say, a write in `Done` and a read in
/// its listing. On the wire each query is followed at once by the request
/// for its own records, and the session is left ready for more.
pub proof fn lemma_operations_go_through_in_turn(
    session: Session,
    commands: Seq<Command>,
    answers: Seq<Seq<RecordView>>,
)
    requires
        session.phase == Phase::Ready,
        answers.len() == commands.len(),
        all_queries(commands),
    ensures
        after_all(session, in_turn(commands, answers)) == session,
        wire(session, in_turn(commands, answers)) == requests_in_turn(commands),
        forall|i: int|
            0 <= i < commands.len() ==> carried_through(
                session,
                #[trigger] commands[i],
                answers[i],
            ).step == completion(kind_of(commands[i])->Some_0, answers[i]),
    decreases commands.len(),
{
    if commands.len() > 0 {
        let earlier = commands.drop_last();
        assert(all_queries(earlier)) by {
            assert forall|i: int| 0 <= i < earlier.len() implies kind_of(
                #[trigger] earlier[i],
            ) is Some by {
                assert(earlier[i] == commands[i]);
            }
        }
        lemma_operations_go_through_in_turn(session, earlier, answers.drop_last());
        lemma_runs_append(
            session,
            in_turn(earlier, answers.drop_last()),
            exchange(commands.last(), answers.last()),
        );
        assert(kind_of(commands[commands.len() - 1]) is Some);
        lemma_exchange_on_the_wire(session, commands.last(), answers.last());
    }
    assert forall|i: int| 0 <= i < commands.len() implies carried_through(
        session,
        #[trigger] commands[i],
        answers[i],
    ).step == completion(kind_of(commands[i])->Some_0, answers[i]) by {
        lemma_exchange_goes_through(session, commands[i], answers[i]);
    }
}

/// A command that comes in while an exchange is under way changes nothing:
/// the session and the wire are as if it had never come.
pub proof fn lemma_late_command_changes_nothing(
    session: Session,
    events: Seq<Event>,
    command: Command,
)
    requires
        awaits_reply(after_all(session, events).phase),
    ensures
        after_all(session, events.push(Event::Ask(command))) == after_all(session, events),
        wire(session, events.push(Event::Ask(command))) == wire(session, events),
{
    lemma_one_more_event(session, events, Event::Ask(command));
}

/// A read leaves the session as it was, and what it returns depends on the
/// records alone: the same read, answered with the same records, returns
/// the same listing again.
pub proof fn lemma_reads_repeat(session: Session, filter: Seq<char>, records: Seq<RecordView>)
    requires
        session.phase == Phase::Ready,
    ensures
        carried_through(
            carried_through(session, Command::Get { filter }, records).session,
            Command::Get { filter },
            records,
        ) == carried_through(session, Command::Get { filter }, records),
{
}

/// One of the replies of a run is an acknowledgment.
pub open spec fn acknowledged(events: Seq<Event>) -> bool {
    exists|i: int|
        0 <= i < events.len() && (#[trigger] events[i] matches Event::Answer(
            ReplyView::Success(_),
        ))
}

/// Without a login that the server acknowledged, no query goes out and no
/// records are asked for.
pub proof fn lemma_no_query_before_login(session: Session, events: Seq<Event>)
    requires
        session.phase == Phase::Unauthenticated,
        !acknowledged(events),
    ensures
        after_all(session, events).phase is Unauthenticated || after_all(session, events).phase
            is LoggingIn || after_all(session, events).phase is Closed,
        forall|i: int|
            0 <= i < wire(session, events).len() ==> (#[trigger] wire(session, events)[i]) is Hello,
    decreases events.len(),
{
    if events.len() > 0 {
        let earlier = events.drop_last();
        assert(!acknowledged(earlier)) by {
            if acknowledged(earlier) {
                let i = choose|i: int|
                    0 <= i < earlier.len() && (#[trigger] earlier[i] matches Event::Answer(
                        ReplyView::Success(_),
                    ));
                assert(events[i] == earlier[i]);
            }
        }
        lemma_no_query_before_login(session, earlier);
        assert(!(events[events.len() - 1] matches Event::Answer(ReplyView::Success(_))));
    }
}

} // verus!
