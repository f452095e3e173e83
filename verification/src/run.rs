//! Whole runs: what a session asks for over any sequence of events, and what
//! holds of every such run.

use vstd::prelude::*;
use crate::command::{lemma_parse_token, spec_dispatch, Command, Invocation};
use crate::session::{
    after_table, operation, react, say, EventView, Phase, RequestView, SessionView, NOT_FOUND,
    PLACEHOLDER_CONTENT,
};

verus! {

/// The session that a run opens with.
pub open spec fn begin(args: Seq<Seq<char>>) -> SessionView {
    SessionView { phase: Phase::CheckingDatabase, args }
}

/// The requests that a session makes as these events reach it in order, one
/// for each event that it accepts. An event that it refuses leaves it as it
/// was.
pub open spec fn requests_from(session: SessionView, events: Seq<EventView>) -> Seq<RequestView>
    decreases events.len(),
{
    if events.len() == 0 {
        Seq::empty()
    } else {
        match react(session, events[0]) {
            Some((phase, directive)) => seq![directive.request] + requests_from(
                SessionView { phase, args: session.args },
                events.drop_first(),
            ),
            None => requests_from(session, events.drop_first()),
        }
    }
}

/// How far a run has come: every accepted event moves it on.
pub open spec fn progress(phase: Phase) -> nat {
    match phase {
        Phase::CheckingDatabase => 0,
        Phase::CreatingDatabase => 1,
        Phase::Connecting => 2,
        Phase::CreatingTable => 3,
        Phase::Inserting => 4,
        Phase::Listing => 4,
        Phase::Finished => 5,
        Phase::Aborted => 5,
    }
}

/// Whether a request reads or writes rows of the table.
pub open spec fn touches_rows(request: RequestView) -> bool {
    request is Insert || request is SelectAll
}

/// Every accepted event moves the run on, and the run is over exactly when
/// the request is to exit or to abort.
pub proof fn law_accepted_event_advances(session: SessionView, event: EventView)
    requires
        react(session, event) is Some,
    ensures
        progress(react(session, event).unwrap().0) > progress(session.phase),
        react(session, event).unwrap().0 == Phase::Finished <==> react(
            session,
            event,
        ).unwrap().1.request is Exit,
        react(session, event).unwrap().0 == Phase::Aborted <==> react(
            session,
            event,
        ).unwrap().1.request is Abort,
{
}

/// A run that is over accepts no further event.
pub proof fn law_ended_run_accepts_nothing(session: SessionView, event: EventView)
    requires
        session.phase == Phase::Finished || session.phase == Phase::Aborted,
    ensures
        react(session, event) is None,
{
}

/// No run is longer than five requests after the opening one, whatever the
/// events.
pub proof fn law_run_is_short(session: SessionView, events: Seq<EventView>)
    ensures
        requests_from(session, events).len() + progress(session.phase) <= 5,
    decreases events.len(),
{
    if events.len() > 0 {
        match react(session, events[0]) {
            Some((phase, directive)) => {
                law_accepted_event_advances(session, events[0]);
                law_run_is_short(SessionView { phase, args: session.args }, events.drop_first());
            },
            None => {
                law_run_is_short(session, events.drop_first());
            },
        }
    }
}

/// A single argument that is a command's token starts the operation of that
/// command once the table is there.
pub proof fn law_single_token_runs_its_operation(args: Seq<Seq<char>>, command: Command)
    requires
        args.len() == 2,
        args[1] == command.token(),
    ensures
        react(
            SessionView { phase: Phase::CreatingTable, args },
            EventView::TableCreated(Ok(())),
        ) == Some(operation(Invocation::Run(command))),
{
    lemma_parse_token(args[1], command);
}

/// Rows are touched only on behalf of the command that was asked for: a run
/// asks for an insert only when its arguments select `create`, and then of the
/// placeholder content; it asks for a select only when they select `readall`.
pub proof fn law_rows_are_touched_on_command_only(
    session: SessionView,
    events: Seq<EventView>,
    i: int,
)
    requires
        0 <= i < requests_from(session, events).len(),
    ensures
        requests_from(session, events)[i] is Insert ==> {
            &&& spec_dispatch(session.args) == Invocation::Run(Command::Create)
            &&& requests_from(session, events)[i] == RequestView::Insert(PLACEHOLDER_CONTENT@)
        },
        requests_from(session, events)[i] is SelectAll ==> spec_dispatch(session.args)
            == Invocation::Run(Command::ReadAll),
    decreases events.len(),
{
    if events.len() > 0 {
        match react(session, events[0]) {
            Some((phase, directive)) => {
                if i > 0 {
                    law_rows_are_touched_on_command_only(
                        SessionView { phase, args: session.args },
                        events.drop_first(),
                        i - 1,
                    );
                }
            },
            None => {
                law_rows_are_touched_on_command_only(session, events.drop_first(), i);
            },
        }
    }
}

/// A single argument that is no command's token prints the line for it and
/// exits, and no request of such a run touches a row.
pub proof fn law_unknown_token_touches_no_row(
    session: SessionView,
    events: Seq<EventView>,
    i: int,
)
    requires
        session.args.len() == 2,
        Command::parse(session.args[1]) is Err,
        0 <= i < requests_from(session, events).len(),
    ensures
        after_table(session.args, Ok(())) == (Phase::Finished, say(NOT_FOUND@, RequestView::Exit)),
        !touches_rows(requests_from(session, events)[i]),
{
    law_rows_are_touched_on_command_only(session, events, i);
}

/// With no argument after the program's name, or with two or more, no
/// request of the run touches a row.
pub proof fn law_other_arities_touch_no_row(
    session: SessionView,
    events: Seq<EventView>,
    i: int,
)
    requires
        session.args.len() != 2,
        0 <= i < requests_from(session, events).len(),
    ensures
        !touches_rows(requests_from(session, events)[i]),
{
    law_rows_are_touched_on_command_only(session, events, i);
}

/// Once a run waits for rows or is over, it asks for nothing that touches a
/// row.
proof fn lemma_rows_are_touched_once(session: SessionView, events: Seq<EventView>, i: int)
    requires
        progress(session.phase) >= 4,
        0 <= i < requests_from(session, events).len(),
    ensures
        !touches_rows(requests_from(session, events)[i]),
    decreases events.len(),
{
    if events.len() > 0 {
        match react(session, events[0]) {
            Some((phase, directive)) => {
                if i > 0 {
                    lemma_rows_are_touched_once(
                        SessionView { phase, args: session.args },
                        events.drop_first(),
                        i - 1,
                    );
                }
            },
            None => {
                lemma_rows_are_touched_once(session, events.drop_first(), i);
            },
        }
    }
}

/// A run touches rows at most once: of any two of its requests, one at least
/// is neither an insert nor a select.
pub proof fn law_one_row_request_at_most(
    session: SessionView,
    events: Seq<EventView>,
    i: int,
    j: int,
)
    requires
        0 <= i < j < requests_from(session, events).len(),
    ensures
        !(touches_rows(requests_from(session, events)[i]) && touches_rows(
            requests_from(session, events)[j],
        )),
    decreases events.len(),
{
    if events.len() > 0 {
        match react(session, events[0]) {
            Some((phase, directive)) => {
                let next = SessionView { phase, args: session.args };
                if i > 0 {
                    law_one_row_request_at_most(next, events.drop_first(), i - 1, j - 1);
                } else if touches_rows(directive.request) {
                    lemma_rows_are_touched_once(next, events.drop_first(), j - 1);
                }
            },
            None => {
                law_one_row_request_at_most(session, events.drop_first(), i, j);
            },
        }
    }
}

/// Where the check finds the database, the run never asks for it to be
/// created.
pub proof fn law_found_database_is_not_created(args: Seq<Seq<char>>, events: Seq<EventView>, i: int)
    requires
        events.len() > 0,
        events[0] == EventView::DatabaseChecked(Ok(true)),
        0 <= i < requests_from(begin(args), events).len(),
    ensures
        !(requests_from(begin(args), events)[i] is CreateDatabase),
{
    let next = SessionView { phase: Phase::Connecting, args };
    if i > 0 {
        lemma_no_creation_after_check(next, events.drop_first(), i - 1);
    }
}

/// Past the check, no run asks for the database to be created.
proof fn lemma_no_creation_after_check(session: SessionView, events: Seq<EventView>, i: int)
    requires
        progress(session.phase) >= 1,
        0 <= i < requests_from(session, events).len(),
    ensures
        !(requests_from(session, events)[i] is CreateDatabase),
    decreases events.len(),
{
    if events.len() > 0 {
        match react(session, events[0]) {
            Some((phase, directive)) => {
                if i > 0 {
                    lemma_no_creation_after_check(
                        SessionView { phase, args: session.args },
                        events.drop_first(),
                        i - 1,
                    );
                }
            },
            None => {
                lemma_no_creation_after_check(session, events.drop_first(), i);
            },
        }
    }
}

} // verus!
