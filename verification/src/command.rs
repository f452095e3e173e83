//! The five subcommands and the tokens that select them.

use vstd::prelude::*;
use crate::text::{same_text, texts};

verus! {

/// One operation of the tool.
#[derive(Clone, Copy, Debug, PartialEq, Eq, Structural)]
pub enum Command {
    Create,
    ReadAll,
    Read,
    Update,
    Delete,
}

impl Command {
    /// The token that selects this command on the command line.
    pub open spec fn token(self) -> Seq<char> {
        match self {
            Command::Create => "create"@,
            Command::ReadAll => "readall"@,
            Command::Read => "read"@,
            Command::Update => "update"@,
            Command::Delete => "delete"@,
        }
    }

    /// The command that a token selects, if any. The match is exact and
    /// case-sensitive.
    pub open spec fn parse(s: Seq<char>) -> Result<Command, ()> {
        if s == "create"@ {
            Ok(Command::Create)
        } else if s == "readall"@ {
            Ok(Command::ReadAll)
        } else if s == "read"@ {
            Ok(Command::Read)
        } else if s == "update"@ {
            Ok(Command::Update)
        } else if s == "delete"@ {
            Ok(Command::Delete)
        } else {
            Err(())
        }
    }

    /// The name of the operation that the command runs.
    pub open spec fn name_text(self) -> Seq<char> {
        match self {
            Command::Create => "Create"@,
            Command::ReadAll => "ReadAll"@,
            Command::Read => "Read"@,
            Command::Update => "Update"@,
            Command::Delete => "Delete"@,
        }
    }

    /// The name of the operation that the command runs.
    pub fn name(self) -> (name: &'static str)
        ensures
            name@ == self.name_text(),
    {
        match self {
            Command::Create => "Create",
            Command::ReadAll => "ReadAll",
            Command::Read => "Read",
            Command::Update => "Update",
            Command::Delete => "Delete",
        }
    }

    /// Parses a command-line token.
    pub fn from_str(s: &str) -> (parsed: Result<Command, ()>)
        ensures
            parsed == Command::parse(s@),
    {
        if same_text(s, "create") {
            Ok(Command::Create)
        } else if same_text(s, "readall") {
            Ok(Command::ReadAll)
        } else if same_text(s, "read") {
            Ok(Command::Read)
        } else if same_text(s, "update") {
            Ok(Command::Update)
        } else if same_text(s, "delete") {
            Ok(Command::Delete)
        } else {
            Err(())
        }
    }
}

/// What an argument list asks for. The list is the whole of the process
/// arguments, the program's own name first.
#[derive(Clone, Copy, Debug, PartialEq, Eq, Structural)]
pub enum Invocation {
    /// Nothing follows the program's name.
    Banner,
    /// One argument follows, and it is the token of this command.
    Run(Command),
    /// One argument follows, and it is no command's token.
    Unknown,
    /// Two or more arguments follow, or the list is empty.
    Help,
}

/// What an argument list asks for.
pub open spec fn spec_dispatch(args: Seq<Seq<char>>) -> Invocation {
    if args.len() == 1 {
        Invocation::Banner
    } else if args.len() == 2 {
        match Command::parse(args[1]) {
            Ok(command) => Invocation::Run(command),
            Err(_) => Invocation::Unknown,
        }
    } else {
        Invocation::Help
    }
}

/// Decides what an argument list asks for.
pub fn dispatch(args: &Vec<String>) -> (invocation: Invocation)
    ensures
        invocation == spec_dispatch(texts(args@)),
{
    if args.len() == 1 {
        Invocation::Banner
    } else if args.len() == 2 {
        match Command::from_str(args[1].as_str()) {
            Ok(command) => Invocation::Run(command),
            Err(_) => Invocation::Unknown,
        }
    } else {
        Invocation::Help
    }
}

/// Each command is selected by its own token and by no other text.
pub proof fn lemma_parse_token(s: Seq<char>, command: Command)
    ensures
        Command::parse(s) == Ok::<Command, ()>(command) <==> s == command.token(),
{
    reveal_strlit("create");
    reveal_strlit("readall");
    reveal_strlit("read");
    reveal_strlit("update");
    reveal_strlit("delete");
    // The five tokens differ from one another in length or in the first
    // character.
    assert("create"@.len() == 6 && "readall"@.len() == 7 && "read"@.len() == 4);
    assert("create"@[0] == 'c' && "update"@[0] == 'u' && "delete"@[0] == 'd');
}

/// A single argument that is a command's token runs that command, and no
/// other argument list does.
pub proof fn law_token_routes_to_command(args: Seq<Seq<char>>, command: Command)
    ensures
        spec_dispatch(args) == Invocation::Run(command) <==> (args.len() == 2 && args[1]
            == command.token()),
{
    if args.len() == 2 {
        lemma_parse_token(args[1], command);
    }
}

} // verus!
