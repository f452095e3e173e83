//! One run of the tool as a state machine. The program performs each request
//! against the database and hands back what came of it as an event; the
//! session decides what is printed and what is asked for next.

use vstd::prelude::*;
use vstd::string::*;
use crate::command::{dispatch, spec_dispatch, Command, Invocation};
use crate::store::{listing_text, read_all, InsertOutcome, DB_URL};
use crate::text::texts;

verus! {

/// Printed before anything else.
pub const GREETING: &'static str = "Hello, world!";

/// Printed where the database file is already there.
pub const DATABASE_EXISTS: &'static str = "Database already exists";

/// Printed, followed by the database's location, before the file is created.
pub const CREATING_DATABASE: &'static str = "Creating database ";

/// Printed once the database file has been created.
pub const DATABASE_CREATED: &'static str = "Create db success";

/// Put before the engine's words where the file cannot be created.
pub const CREATE_FAILED: &'static str = "error: ";

/// Printed where no argument follows the program's name.
pub const BANNER: &'static str = "this is todo cli in rust";

/// Printed for a single argument that is no command's token.
pub const NOT_FOUND: &'static str = "Error, command not found!";

/// Printed in place of a help text.
pub const HELP: &'static str = "show help here";

/// Content given to every todo that `create` inserts.
pub const PLACEHOLDER_CONTENT: &'static str = "test todo";

/// Where a run stands: what it is waiting for.
#[derive(Clone, Copy, Debug, PartialEq, Eq, Structural)]
pub enum Phase {
    /// Asked whether the database file exists.
    CheckingDatabase,
    /// Asked for the database file to be created.
    CreatingDatabase,
    /// Asked for a connection.
    Connecting,
    /// Asked for the table to be created unless it exists.
    CreatingTable,
    /// Asked for a todo to be inserted.
    Inserting,
    /// Asked for all todos.
    Listing,
    /// The run is over and the process exits normally.
    Finished,
    /// The run is over and the process aborts.
    Aborted,
}

/// What the session asks the program to do next.
#[derive(Debug, PartialEq, Eq)]
pub enum Request {
    /// Find out whether the database at [`DB_URL`] exists.
    CheckDatabase,
    /// Create the database at [`DB_URL`].
    CreateDatabase,
    /// Open a connection pool on [`DB_URL`].
    Connect,
    /// Execute the statement that creates the table unless it exists.
    CreateTable,
    /// Insert the row that [`crate::store::create`] makes of this content.
    Insert(String),
    /// Select all todos.
    SelectAll,
    /// Exit normally.
    Exit,
    /// Abort the process with this diagnostic.
    Abort(String),
}

/// A [`Request`] by the characters of its strings.
pub enum RequestView {
    CheckDatabase,
    CreateDatabase,
    Connect,
    CreateTable,
    Insert(Seq<char>),
    SelectAll,
    Exit,
    Abort(Seq<char>),
}

impl View for Request {
    type V = RequestView;

    open spec fn view(&self) -> RequestView {
        match *self {
            Request::CheckDatabase => RequestView::CheckDatabase,
            Request::CreateDatabase => RequestView::CreateDatabase,
            Request::Connect => RequestView::Connect,
            Request::CreateTable => RequestView::CreateTable,
            Request::Insert(content) => RequestView::Insert(content@),
            Request::SelectAll => RequestView::SelectAll,
            Request::Exit => RequestView::Exit,
            Request::Abort(message) => RequestView::Abort(message@),
        }
    }
}

/// What came of a request. A failure carries the engine's words for it.
#[derive(Debug, PartialEq, Eq)]
pub enum Event {
    /// Answer to [`Request::CheckDatabase`]: whether the database exists.
    DatabaseChecked(Result<bool, String>),
    /// Answer to [`Request::CreateDatabase`].
    DatabaseCreated(Result<(), String>),
    /// Answer to [`Request::Connect`].
    Connected(Result<(), String>),
    /// Answer to [`Request::CreateTable`].
    TableCreated(Result<(), String>),
    /// Answer to [`Request::Insert`].
    Inserted(Result<InsertOutcome, String>),
    /// Answer to [`Request::SelectAll`]: the content of each row, in the
    /// order in which the engine gave the rows.
    Listed(Result<Vec<String>, String>),
}

/// An [`Event`] by the characters of its strings.
pub enum EventView {
    DatabaseChecked(Result<bool, Seq<char>>),
    DatabaseCreated(Result<(), Seq<char>>),
    Connected(Result<(), Seq<char>>),
    TableCreated(Result<(), Seq<char>>),
    Inserted(Result<InsertOutcome, Seq<char>>),
    Listed(Result<Seq<Seq<char>>, Seq<char>>),
}

/// An answer with the characters of its failure.
pub open spec fn answer_view<T>(answer: Result<T, String>) -> Result<T, Seq<char>> {
    match answer {
        Ok(value) => Ok(value),
        Err(reason) => Err(reason@),
    }
}

impl View for Event {
    type V = EventView;

    open spec fn view(&self) -> EventView {
        match *self {
            Event::DatabaseChecked(found) => EventView::DatabaseChecked(answer_view(found)),
            Event::DatabaseCreated(made) => EventView::DatabaseCreated(answer_view(made)),
            Event::Connected(opened) => EventView::Connected(answer_view(opened)),
            Event::TableCreated(made) => EventView::TableCreated(answer_view(made)),
            Event::Inserted(done) => EventView::Inserted(answer_view(done)),
            Event::Listed(rows) => EventView::Listed(
                match rows {
                    Ok(contents) => Ok(texts(contents@)),
                    Err(reason) => Err(reason@),
                },
            ),
        }
    }
}

/// What the program does after an event: print these lines, in order, then
/// perform the request.
#[derive(Debug, PartialEq, Eq)]
pub struct Directive {
    pub prints: Vec<String>,
    pub request: Request,
}

/// A [`Directive`] by the characters of its strings.
pub struct DirectiveView {
    pub prints: Seq<Seq<char>>,
    pub request: RequestView,
}

impl View for Directive {
    type V = DirectiveView;

    open spec fn view(&self) -> DirectiveView {
        DirectiveView { prints: texts(self.prints@), request: self.request@ }
    }
}

/// Print one line, then perform the request.
pub open spec fn say(line: Seq<char>, request: RequestView) -> DirectiveView {
    DirectiveView { prints: seq![line], request }
}

/// Perform the request without printing.
pub open spec fn silently(request: RequestView) -> DirectiveView {
    DirectiveView { prints: Seq::empty(), request }
}

/// The first directive of every run.
pub open spec fn opening() -> DirectiveView {
    say(GREETING@, RequestView::CheckDatabase)
}

/// After the check for the database: connect to one that is there, create
/// one that is not. A check that fails counts as a database that is not
/// there.
pub open spec fn after_check(found: Result<bool, Seq<char>>) -> (Phase, DirectiveView) {
    if found == Ok::<bool, Seq<char>>(true) {
        (Phase::Connecting, say(DATABASE_EXISTS@, RequestView::Connect))
    } else {
        (Phase::CreatingDatabase, say(CREATING_DATABASE@ + DB_URL@, RequestView::CreateDatabase))
    }
}

/// After the creation of the database: connect, or abort with the engine's
/// words behind [`CREATE_FAILED`].
pub open spec fn after_create(made: Result<(), Seq<char>>) -> (Phase, DirectiveView) {
    match made {
        Ok(_) => (Phase::Connecting, say(DATABASE_CREATED@, RequestView::Connect)),
        Err(reason) => (Phase::Aborted, silently(RequestView::Abort(CREATE_FAILED@ + reason))),
    }
}

/// After the connection: create the table, or abort with the engine's words.
pub open spec fn after_connect(opened: Result<(), Seq<char>>) -> (Phase, DirectiveView) {
    match opened {
        Ok(_) => (Phase::CreatingTable, silently(RequestView::CreateTable)),
        Err(reason) => (Phase::Aborted, silently(RequestView::Abort(reason))),
    }
}

/// The operation that an invocation selects, once the database and its
/// table are there.
pub open spec fn operation(invocation: Invocation) -> (Phase, DirectiveView) {
    match invocation {
        Invocation::Banner => (Phase::Finished, say(BANNER@, RequestView::Exit)),
        Invocation::Run(Command::Create) => (
            Phase::Inserting,
            say(Command::Create.name_text(), RequestView::Insert(PLACEHOLDER_CONTENT@)),
        ),
        Invocation::Run(Command::ReadAll) => (Phase::Listing, silently(RequestView::SelectAll)),
        Invocation::Run(command) => (Phase::Finished, say(command.name_text(), RequestView::Exit)),
        Invocation::Unknown => (Phase::Finished, say(NOT_FOUND@, RequestView::Exit)),
        Invocation::Help => (Phase::Finished, say(HELP@, RequestView::Exit)),
    }
}

/// After the creation of the table: the operation that the arguments select,
/// or abort with the engine's words.
pub open spec fn after_table(args: Seq<Seq<char>>, made: Result<(), Seq<char>>) -> (
    Phase,
    DirectiveView,
) {
    match made {
        Ok(_) => operation(spec_dispatch(args)),
        Err(reason) => (Phase::Aborted, silently(RequestView::Abort(reason))),
    }
}

/// After the insert: print the engine's answer and exit, or abort with the
/// engine's words.
pub open spec fn after_insert(done: Result<InsertOutcome, Seq<char>>) -> (Phase, DirectiveView) {
    match done {
        Ok(outcome) => (Phase::Finished, say(outcome.report_text(), RequestView::Exit)),
        Err(reason) => (Phase::Aborted, silently(RequestView::Abort(reason))),
    }
}

/// After the select: print the listing and exit, or abort with the engine's
/// words.
pub open spec fn after_select(rows: Result<Seq<Seq<char>>, Seq<char>>) -> (Phase, DirectiveView) {
    match rows {
        Ok(contents) => (
            Phase::Finished,
            DirectiveView { prints: listing_text(contents), request: RequestView::Exit },
        ),
        Err(reason) => (Phase::Aborted, silently(RequestView::Abort(reason))),
    }
}

/// A session as the contracts see it.
pub struct SessionView {
    pub phase: Phase,
    pub args: Seq<Seq<char>>,
}

/// What one event does to a session: the phase it moves to and the directive
/// it gives. `None` where the session is not waiting for this event.
pub open spec fn react(session: SessionView, event: EventView) -> Option<(Phase, DirectiveView)> {
    match (session.phase, event) {
        (Phase::CheckingDatabase, EventView::DatabaseChecked(found)) => Some(after_check(found)),
        (Phase::CreatingDatabase, EventView::DatabaseCreated(made)) => Some(after_create(made)),
        (Phase::Connecting, EventView::Connected(opened)) => Some(after_connect(opened)),
        (Phase::CreatingTable, EventView::TableCreated(made)) => Some(
            after_table(session.args, made),
        ),
        (Phase::Inserting, EventView::Inserted(done)) => Some(after_insert(done)),
        (Phase::Listing, EventView::Listed(rows)) => Some(after_select(rows)),
        _ => None,
    }
}

/// The event does not answer the request that the session made last.
#[derive(Clone, Copy, Debug, PartialEq, Eq, Structural)]
pub struct Unexpected;

/// One run of the tool.
#[derive(Debug, PartialEq, Eq)]
pub struct Session {
    phase: Phase,
    args: Vec<String>,
}

impl View for Session {
    type V = SessionView;

    closed spec fn view(&self) -> SessionView {
        SessionView { phase: self.phase, args: texts(self.args@) }
    }
}

fn one_line(line: String, request: Request) -> (directive: Directive)
    ensures
        directive@ == say(line@, request@),
{
    let mut prints: Vec<String> = Vec::new();
    prints.push(line);
    let directive = Directive { prints, request };
    assert(directive@.prints =~= seq![line@]);
    directive
}

fn no_line(request: Request) -> (directive: Directive)
    ensures
        directive@ == silently(request@),
{
    let directive = Directive { prints: Vec::new(), request };
    assert(directive@.prints =~= Seq::<Seq<char>>::empty());
    directive
}

impl Session {
    /// Opens a run on the process arguments, the program's own name first.
    pub fn start(args: Vec<String>) -> (opened: (Session, Directive))
        ensures
            opened.0@ == (SessionView { phase: Phase::CheckingDatabase, args: texts(args@) }),
            opened.1@ == opening(),
    {
        let session = Session { phase: Phase::CheckingDatabase, args };
        (session, one_line(String::from_str(GREETING), Request::CheckDatabase))
    }

    /// Where the run stands.
    pub fn phase(&self) -> (phase: Phase)
        ensures
            phase == self@.phase,
    {
        self.phase
    }

    /// The arguments that the run was opened on.
    pub fn args(&self) -> (args: &Vec<String>)
        ensures
            texts(args@) == self@.args,
    {
        &self.args
    }

    /// Takes what came of the last request, and says what to print and what
    /// to do next. An event that does not answer the last request is
    /// refused and leaves the session as it was.
    pub fn step(&mut self, event: Event) -> (next: Result<Directive, Unexpected>)
        ensures
            match react(old(self)@, event@) {
                Some((phase, directive)) => {
                    &&& next is Ok
                    &&& next->Ok_0@ == directive
                    &&& final(self)@ == (SessionView { phase, args: old(self)@.args })
                },
                None => next is Err && final(self)@ == old(self)@,
            },
    {
        let (phase, directive) = match (self.phase, event) {
            (Phase::CheckingDatabase, Event::DatabaseChecked(found)) => decide_after_check(found),
            (Phase::CreatingDatabase, Event::DatabaseCreated(made)) => decide_after_create(made),
            (Phase::Connecting, Event::Connected(opened)) => decide_after_connect(opened),
            (Phase::CreatingTable, Event::TableCreated(made)) => decide_after_table(
                &self.args,
                made,
            ),
            (Phase::Inserting, Event::Inserted(done)) => decide_after_insert(done),
            (Phase::Listing, Event::Listed(rows)) => decide_after_select(rows),
            _ => {
                return Err(Unexpected);
            },
        };
        self.phase = phase;
        Ok(directive)
    }
}

/// Decides what follows the check for the database.
pub fn decide_after_check(found: Result<bool, String>) -> (next: (Phase, Directive))
    ensures
        (next.0, next.1@) == after_check(answer_view(found)),
{
    match found {
        Ok(true) => (
            Phase::Connecting,
            one_line(String::from_str(DATABASE_EXISTS), Request::Connect),
        ),
        _ => (
            Phase::CreatingDatabase,
            one_line(String::from_str(CREATING_DATABASE).concat(DB_URL), Request::CreateDatabase),
        ),
    }
}

/// Decides what follows the creation of the database.
pub fn decide_after_create(made: Result<(), String>) -> (next: (Phase, Directive))
    ensures
        (next.0, next.1@) == after_create(answer_view(made)),
{
    match made {
        Ok(_) => (
            Phase::Connecting,
            one_line(String::from_str(DATABASE_CREATED), Request::Connect),
        ),
        Err(reason) => (
            Phase::Aborted,
            no_line(Request::Abort(String::from_str(CREATE_FAILED).concat(reason.as_str()))),
        ),
    }
}

/// Decides what follows the connection.
pub fn decide_after_connect(opened: Result<(), String>) -> (next: (Phase, Directive))
    ensures
        (next.0, next.1@) == after_connect(answer_view(opened)),
{
    match opened {
        Ok(_) => (Phase::CreatingTable, no_line(Request::CreateTable)),
        Err(reason) => (Phase::Aborted, no_line(Request::Abort(reason))),
    }
}

/// Starts the operation that an invocation selects.
pub fn operate(invocation: Invocation) -> (next: (Phase, Directive))
    ensures
        (next.0, next.1@) == operation(invocation),
{
    match invocation {
        Invocation::Banner => (Phase::Finished, one_line(String::from_str(BANNER), Request::Exit)),
        Invocation::Run(Command::Create) => (
            Phase::Inserting,
            one_line(
                String::from_str(Command::Create.name()),
                Request::Insert(String::from_str(PLACEHOLDER_CONTENT)),
            ),
        ),
        Invocation::Run(Command::ReadAll) => (Phase::Listing, no_line(Request::SelectAll)),
        Invocation::Run(command) => (
            Phase::Finished,
            one_line(String::from_str(command.name()), Request::Exit),
        ),
        Invocation::Unknown => (
            Phase::Finished,
            one_line(String::from_str(NOT_FOUND), Request::Exit),
        ),
        Invocation::Help => (Phase::Finished, one_line(String::from_str(HELP), Request::Exit)),
    }
}

/// Decides what follows the creation of the table.
pub fn decide_after_table(args: &Vec<String>, made: Result<(), String>) -> (next: (
    Phase,
    Directive,
))
    ensures
        (next.0, next.1@) == after_table(texts(args@), answer_view(made)),
{
    match made {
        Ok(_) => operate(dispatch(args)),
        Err(reason) => (Phase::Aborted, no_line(Request::Abort(reason))),
    }
}

/// Decides what follows the insert.
pub fn decide_after_insert(done: Result<InsertOutcome, String>) -> (next: (Phase, Directive))
    ensures
        (next.0, next.1@) == after_insert(answer_view(done)),
{
    match done {
        Ok(outcome) => (Phase::Finished, one_line(outcome.report(), Request::Exit)),
        Err(reason) => (Phase::Aborted, no_line(Request::Abort(reason))),
    }
}

/// Decides what follows the select.
pub fn decide_after_select(rows: Result<Vec<String>, String>) -> (next: (Phase, Directive))
    ensures
        (next.0, next.1@) == after_select(
            match rows {
                Ok(contents) => Ok(texts(contents@)),
                Err(reason) => Err(reason@),
            },
        ),
{
    match rows {
        Ok(contents) => {
            let prints = read_all(&contents);
            (Phase::Finished, Directive { prints, request: Request::Exit })
        },
        Err(reason) => (Phase::Aborted, no_line(Request::Abort(reason))),
    }
}

} // verus!
