//! The data access layer: where the todos are kept, the statements sent to
//! the engine, the values bound to them and what is printed of the answers.

use vstd::prelude::*;
use vstd::string::*;
use crate::clock::{read_clock, Timestamp};
use crate::text::{decimal, quote, quoted, render_signed, render_unsigned, signed_decimal, texts};

verus! {

/// Location of the database file, relative to the working directory.
pub const DB_URL: &'static str = "sqlite://sqlite.db";

/// Creates the `todo` table unless it is already there.
pub const CREATE_TODO_TABLE: &'static str = "
create table if not exists todo(
  id integer primary key autoincrement not null,
  content text not null,
  isDone boolean not null,
  createdAt datetime not null default current_time,
  updatedAt datetime not null default current_time,
  doneAt datetime
);
";

/// Inserts one todo. The four parameters are, in order, the fields of
/// [`NewTodo`].
pub const INSERT_TODO: &'static str = "
insert into todo (content, isDone, createdAt, updatedAt) values (?, ?, ?, ?)
";

/// Selects every todo, in the engine's own order.
pub const SELECT_TODOS: &'static str = "
select Id, Content, IsDone from todo;
";

/// The values bound to [`INSERT_TODO`]. The engine assigns the identity.
#[derive(Debug, PartialEq, Eq)]
pub struct NewTodo {
    pub content: String,
    pub is_done: bool,
    pub created_at: Timestamp,
    pub updated_at: Timestamp,
}

impl NewTodo {
    /// Both instants are well formed.
    pub open spec fn wf(self) -> bool {
        self.created_at.wf() && self.updated_at.wf()
    }

    /// A todo that is not done, with the given content and instants. Any
    /// content is accepted, the empty string too.
    pub fn stamped(content: String, created_at: Timestamp, updated_at: Timestamp) -> (todo: NewTodo)
        ensures
            todo.content@ == content@,
            todo.is_done == false,
            todo.created_at == created_at,
            todo.updated_at == updated_at,
    {
        NewTodo { content, is_done: false, created_at, updated_at }
    }
}

/// The row to insert for a new todo with this content: not done, created
/// and updated now. The clock is read once for each of the two instants.
pub fn create(content: String) -> (todo: NewTodo)
    ensures
        todo.content@ == content@,
        todo.is_done == false,
        todo.wf(),
{
    let created_at = read_clock();
    let updated_at = read_clock();
    NewTodo::stamped(content, created_at, updated_at)
}

/// What the engine answers to an insert.
#[derive(Clone, Copy, Debug, PartialEq, Eq, Structural)]
pub struct InsertOutcome {
    /// Number of rows that the statement changed.
    pub changes: u64,
    /// Identity of the row that was inserted last.
    pub last_insert_rowid: i64,
}

impl InsertOutcome {
    /// The line printed for an insert: the engine's answer with its two
    /// fields by name.
    pub open spec fn report_text(self) -> Seq<char> {
        "SqliteQueryResult { changes: "@ + decimal(self.changes as nat)
            + ", last_insert_rowid: "@ + signed_decimal(self.last_insert_rowid as int) + " }"@
    }

    /// Writes the line printed for an insert.
    pub fn report(&self) -> (line: String)
        ensures
            line@ == self.report_text(),
    {
        let mut line = String::from_str("SqliteQueryResult { changes: ");
        line.append(render_unsigned(self.changes).as_str());
        line.append(", last_insert_rowid: ");
        line.append(render_signed(self.last_insert_rowid).as_str());
        line.append(" }");
        line
    }
}

/// One line of the listing: the zero-based position between square brackets,
/// a colon and a space, then the content as it was quoted.
pub open spec fn line_text(index: nat, quoted: Seq<char>) -> Seq<char> {
    "["@ + decimal(index) + "]: "@ + quoted
}

/// The listing of the todos with these contents, one line for each, in the
/// order given.
pub open spec fn listing_text(contents: Seq<Seq<char>>) -> Seq<Seq<char>> {
    Seq::new(contents.len(), |i: int| line_text(i as nat, quoted(contents[i])))
}

/// Writes one line of the listing from a position and a content that is
/// already quoted.
pub fn listing_line(index: usize, quoted: &str) -> (line: String)
    ensures
        line@ == line_text(index as nat, quoted@),
{
    let mut line = String::from_str("[");
    line.append(render_unsigned(index as u64).as_str());
    line.append("]: ");
    line.append(quoted);
    line
}

/// Writes the listing of the todos with these contents.
pub fn read_all(contents: &Vec<String>) -> (lines: Vec<String>)
    ensures
        texts(lines@) == listing_text(texts(contents@)),
{
    let mut lines: Vec<String> = Vec::new();
    let mut i: usize = 0;
    while i < contents.len()
        invariant
            i <= contents.len(),
            lines.len() == i,
            forall|j: int| 0 <= j < i ==> (#[trigger] lines@[j])@ == line_text(j as nat, quoted(contents@[j]@)),
        decreases contents.len() - i,
    {
        let quoted_content = quote(contents[i].as_str());
        lines.push(listing_line(i, quoted_content.as_str()));
        i = i + 1;
    }
    assert(texts(lines@) =~= listing_text(texts(contents@)));
    lines
}

} // verus!
