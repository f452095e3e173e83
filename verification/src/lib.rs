//! A command-line todo list kept in a local SQLite file: the decisions of the
//! tool, stated and proved. The program around this library performs the
//! database calls and the printing; everything it is told to do comes from here.

pub mod text;
pub mod command;
pub mod clock;
pub mod store;
pub mod session;
pub mod run;
