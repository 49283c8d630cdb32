//! Jobs: the programs that the commands run, and how each is started.

use vstd::prelude::*;

use crate::script::{MemberCheck, Tool};

verus! {

/// A program to run: a tool for the whole workspace, or a check on the
/// member of the given name.
#[derive(Debug, PartialEq, Eq)]
pub enum Job {
    Tool(Tool),
    Member(MemberCheck, String),
}

/// A [`Job`] with the member's name as a sequence of characters.
pub enum JobView {
    Tool(Tool),
    Member(MemberCheck, Seq<char>),
}

impl View for Job {
    type V = JobView;

    open spec fn view(&self) -> JobView {
        match self {
            Job::Tool(tool) => JobView::Tool(*tool),
            Job::Member(check, name) => JobView::Member(*check, name@),
        }
    }
}

impl Clone for Job {
    fn clone(&self) -> (copy: Job)
        ensures
            copy@ == self@,
    {
        match self {
            Job::Tool(tool) => Job::Tool(*tool),
            Job::Member(check, name) => Job::Member(*check, name.clone()),
        }
    }
}

impl JobView {
    /// The name of the program to start.
    pub open spec fn program(self) -> Seq<char> {
        match self {
            JobView::Tool(Tool::Typos) => "typos"@,
            _ => "cargo"@,
        }
    }

    /// The arguments to start the program with.
    pub open spec fn args(self) -> Seq<Seq<char>> {
        match self {
            JobView::Tool(Tool::Audit) => seq!["audit"@, "-q"@, "--color"@, "always"@, "fix"@],
            JobView::Tool(Tool::Typos) => seq!["--write-changes"@],
            JobView::Tool(Tool::Deny) => seq!["deny"@, "check"@],
            JobView::Tool(Tool::Udeps) => seq!["udeps"@],
            JobView::Member(MemberCheck::Format, name) => seq![
                "fmt"@,
                "-p"@,
                name,
                "--"@,
                "--color=always"@,
            ],
            JobView::Member(MemberCheck::Lint, name) => seq![
                "clippy"@,
                "--no-deps"@,
                "--fix"@,
                "--allow-dirty"@,
                "--allow-staged"@,
                "--color=always"@,
                "-p"@,
                name,
                "--"@,
                "--deny"@,
                "warnings"@,
            ],
        }
    }

    /// What the job is called where it could not be started.
    pub open spec fn title(self) -> Seq<char> {
        match self {
            JobView::Tool(Tool::Audit) => "cargo audit"@,
            JobView::Tool(Tool::Typos) => "typos"@,
            JobView::Tool(Tool::Deny) => "cargo deny"@,
            JobView::Tool(Tool::Udeps) => "cargo udeps"@,
            JobView::Member(MemberCheck::Format, _) => "cargo fmt"@,
            JobView::Member(MemberCheck::Lint, _) => "cargo clippy"@,
        }
    }

    /// What is reported where the program ended with a status other than
    /// success.
    pub open spec fn complaint(self) -> Seq<char> {
        match self {
            JobView::Tool(Tool::Audit) => "Audit check execution failed"@,
            JobView::Tool(Tool::Typos) => "Some typos have been found and cannot be fixed."@,
            JobView::Tool(Tool::Deny) => "Some dependencies don't meet the requirements!"@,
            JobView::Tool(Tool::Udeps) => "Unused dependencies found!"@,
            JobView::Member(MemberCheck::Format, name) => "Format check execution failed for "@
                + name,
            JobView::Member(MemberCheck::Lint, name) => "Lint fix execution failed for "@ + name,
        }
    }
}

impl Job {
    /// The name of the program to start.
    pub fn program(&self) -> (program: &'static str)
        ensures
            program@ == self@.program(),
    {
        match self {
            Job::Tool(Tool::Typos) => "typos",
            _ => "cargo",
        }
    }

    /// The arguments to start the program with.
    pub fn args(&self) -> (args: Vec<String>)
        ensures
            args.deep_view() == self@.args(),
    {
        let mut args: Vec<String> = Vec::new();
        match self {
            Job::Tool(Tool::Audit) => {
                args.push("audit".to_owned());
                args.push("-q".to_owned());
                args.push("--color".to_owned());
                args.push("always".to_owned());
                args.push("fix".to_owned());
            },
            Job::Tool(Tool::Typos) => {
                args.push("--write-changes".to_owned());
            },
            Job::Tool(Tool::Deny) => {
                args.push("deny".to_owned());
                args.push("check".to_owned());
            },
            Job::Tool(Tool::Udeps) => {
                args.push("udeps".to_owned());
            },
            Job::Member(MemberCheck::Format, name) => {
                args.push("fmt".to_owned());
                args.push("-p".to_owned());
                args.push(name.clone());
                args.push("--".to_owned());
                args.push("--color=always".to_owned());
            },
            Job::Member(MemberCheck::Lint, name) => {
                args.push("clippy".to_owned());
                args.push("--no-deps".to_owned());
                args.push("--fix".to_owned());
                args.push("--allow-dirty".to_owned());
                args.push("--allow-staged".to_owned());
                args.push("--color=always".to_owned());
                args.push("-p".to_owned());
                args.push(name.clone());
                args.push("--".to_owned());
                args.push("--deny".to_owned());
                args.push("warnings".to_owned());
            },
        }
        assert(args.deep_view() =~= self@.args());
        args
    }

    /// What the job is called where it could not be started.
    pub fn title(&self) -> (title: &'static str)
        ensures
            title@ == self@.title(),
    {
        match self {
            Job::Tool(Tool::Audit) => "cargo audit",
            Job::Tool(Tool::Typos) => "typos",
            Job::Tool(Tool::Deny) => "cargo deny",
            Job::Tool(Tool::Udeps) => "cargo udeps",
            Job::Member(MemberCheck::Format, _) => "cargo fmt",
            Job::Member(MemberCheck::Lint, _) => "cargo clippy",
        }
    }

    /// What is reported where the program ended with a status other than
    /// success.
    pub fn complaint(&self) -> (complaint: String)
        ensures
            complaint@ == self@.complaint(),
    {
        match self {
            Job::Tool(Tool::Audit) => "Audit check execution failed".to_owned(),
            Job::Tool(Tool::Typos) => "Some typos have been found and cannot be fixed.".to_owned(),
            Job::Tool(Tool::Deny) => "Some dependencies don't meet the requirements!".to_owned(),
            Job::Tool(Tool::Udeps) => "Unused dependencies found!".to_owned(),
            Job::Member(MemberCheck::Format, name) => {
                let mut complaint = "Format check execution failed for ".to_owned();
                complaint.append(name.as_str());
                complaint
            },
            Job::Member(MemberCheck::Lint, name) => {
                let mut complaint = "Lint fix execution failed for ".to_owned();
                complaint.append(name.as_str());
                complaint
            },
        }
    }
}

} // verus!
