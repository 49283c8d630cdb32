//! Decisions of a workspace task runner.
//!
//! A command of the runner is a script: a fixed list of steps, each of which
//! asks something of the outside world (a confirmation, the members of the
//! workspace, the installation of a tool, the run of a program). The library
//! builds the script of each command and, in a [`session::Session`], decides
//! step by step which request comes next and how the command ends. It starts
//! no process and prints nothing: the caller carries out each request and
//! reports what came of it.

pub mod commands;
pub mod job;
pub mod script;
pub mod session;
pub mod utils;
pub mod versions;
