//! Scripts: what a command does, as a list of guarded steps.

use vstd::prelude::*;

use crate::commands::check::CheckCommand;
use crate::commands::Target;
use crate::utils::workspace::WorkspaceMemberType;
use crate::versions::TYPOS_VERSION;

verus! {

/// When a step of a script is carried out.
#[derive(Clone, Copy, Debug, PartialEq, Eq, Structural)]
pub enum Condition {
    /// In every case.
    Always,
    /// Only while the user has given no answer yet.
    Unanswered,
    /// Only once the user has answered yes.
    Confirmed,
    /// Only once the current toolchain is known to be a nightly one.
    Nightly,
}

impl Condition {
    /// Whether the condition holds, given the answer of the user and what is
    /// known of the toolchain.
    pub open spec fn holds_spec(self, answer: Option<bool>, nightly: Option<bool>) -> bool {
        match self {
            Condition::Always => true,
            Condition::Unanswered => answer is None,
            Condition::Confirmed => answer == Some(true),
            Condition::Nightly => nightly == Some(true),
        }
    }

    /// Whether the condition holds, given the answer of the user and what is
    /// known of the toolchain.
    pub fn holds(&self, answer: Option<bool>, nightly: Option<bool>) -> (r: bool)
        ensures
            r == self.holds_spec(answer, nightly),
    {
        match self {
            Condition::Always => true,
            Condition::Unanswered => answer.is_none(),
            Condition::Confirmed => match answer {
                Some(yes) => yes,
                None => false,
            },
            Condition::Nightly => match nightly {
                Some(yes) => yes,
                None => false,
            },
        }
    }
}

/// A question put to the user before a check changes anything: the
/// check, and the target that it is about to run on.
#[derive(Clone, Copy, Debug, PartialEq, Eq, Structural)]
pub struct Prompt {
    pub command: CheckCommand,
    pub target: Target,
}

impl Prompt {
    /// The words of the question.
    pub open spec fn text_spec(self) -> Seq<char> {
        match (self.command, self.target) {
            (CheckCommand::All, _) =>
                "This will run all the checks with autofix on all members of the workspace."@,
            (CheckCommand::Audit, Target::Workspace) =>
                "This will run audit checks on all targets."@,
            (CheckCommand::Audit, _) =>
                "This will run the audit check with autofix mode enabled."@,
            (CheckCommand::Format, Target::Crates) =>
                "This will run format checks on all crates of the workspace."@,
            (CheckCommand::Format, Target::Examples) =>
                "This will run format checks on all examples of the workspace."@,
            (CheckCommand::Format, Target::Workspace) =>
                "This will run format check on all members of the workspace."@,
            (CheckCommand::Lint, Target::Crates) =>
                "This will run lint fix on all crates of the workspace."@,
            (CheckCommand::Lint, Target::Examples) =>
                "This will run lint fix on all examples of the workspace."@,
            (CheckCommand::Lint, Target::Workspace) =>
                "This will run lint fix on all members of the workspace."@,
            (CheckCommand::Typos, Target::Workspace) =>
                "This will look for typos on all targets."@,
            (CheckCommand::Typos, _) =>
                "This will look for typos in the source code check and auto-fix them."@,
        }
    }

    /// The words of the question.
    pub fn text(&self) -> (text: &'static str)
        ensures
            text@ == self.text_spec(),
    {
        match (self.command, self.target) {
            (CheckCommand::All, _) =>
                "This will run all the checks with autofix on all members of the workspace.",
            (CheckCommand::Audit, Target::Workspace) =>
                "This will run audit checks on all targets.",
            (CheckCommand::Audit, _) =>
                "This will run the audit check with autofix mode enabled.",
            (CheckCommand::Format, Target::Crates) =>
                "This will run format checks on all crates of the workspace.",
            (CheckCommand::Format, Target::Examples) =>
                "This will run format checks on all examples of the workspace.",
            (CheckCommand::Format, Target::Workspace) =>
                "This will run format check on all members of the workspace.",
            (CheckCommand::Lint, Target::Crates) =>
                "This will run lint fix on all crates of the workspace.",
            (CheckCommand::Lint, Target::Examples) =>
                "This will run lint fix on all examples of the workspace.",
            (CheckCommand::Lint, Target::Workspace) =>
                "This will run lint fix on all members of the workspace.",
            (CheckCommand::Typos, Target::Workspace) =>
                "This will look for typos on all targets.",
            (CheckCommand::Typos, _) =>
                "This will look for typos in the source code check and auto-fix them.",
        }
    }
}

/// A program that is installed on demand and then run once for the whole
/// workspace.
#[derive(Clone, Copy, Debug, PartialEq, Eq, Structural)]
pub enum Tool {
    /// `cargo audit`, from the crate `cargo-audit`.
    Audit,
    /// `typos`, from the crate `typos-cli`.
    Typos,
    /// `cargo deny`, from the crate `cargo-deny`.
    Deny,
    /// `cargo udeps`, from the crate `cargo-udeps`.
    Udeps,
}

impl Tool {
    /// The name of the crate that holds the tool.
    pub open spec fn crate_name_spec(self) -> Seq<char> {
        match self {
            Tool::Audit => "cargo-audit"@,
            Tool::Typos => "typos-cli"@,
            Tool::Deny => "cargo-deny"@,
            Tool::Udeps => "cargo-udeps"@,
        }
    }

    /// The features to install the crate with, if any.
    pub open spec fn features_spec(self) -> Option<Seq<char>> {
        match self {
            Tool::Audit => Some("fix"@),
            _ => None,
        }
    }

    /// The version to install the crate at, if a given one is wanted.
    pub open spec fn version_spec(self) -> Option<Seq<char>> {
        match self {
            Tool::Typos => Some(TYPOS_VERSION@),
            _ => None,
        }
    }

    /// The name of the crate that holds the tool.
    pub fn crate_name(&self) -> (name: &'static str)
        ensures
            name@ == self.crate_name_spec(),
    {
        match self {
            Tool::Audit => "cargo-audit",
            Tool::Typos => "typos-cli",
            Tool::Deny => "cargo-deny",
            Tool::Udeps => "cargo-udeps",
        }
    }

    /// The features to install the crate with, if any.
    pub fn features(&self) -> (features: Option<&'static str>)
        ensures
            match features {
                Some(features) => self.features_spec() == Some(features@),
                None => self.features_spec() is None,
            },
    {
        match self {
            Tool::Audit => Some("fix"),
            _ => None,
        }
    }

    /// The version to install the crate at, if a given one is wanted.
    pub fn version(&self) -> (version: Option<&'static str>)
        ensures
            match version {
                Some(version) => self.version_spec() == Some(version@),
                None => self.version_spec() is None,
            },
    {
        match self {
            Tool::Typos => Some(TYPOS_VERSION),
            _ => None,
        }
    }
}

/// A check that is run once for each selected member of the workspace.
#[derive(Clone, Copy, Debug, PartialEq, Eq, Structural)]
pub enum MemberCheck {
    /// `cargo fmt` on the member.
    Format,
    /// `cargo clippy` on the member.
    Lint,
}

impl MemberCheck {
    /// The command of the check family that stands for this check.
    pub open spec fn command_spec(self) -> CheckCommand {
        match self {
            MemberCheck::Format => CheckCommand::Format,
            MemberCheck::Lint => CheckCommand::Lint,
        }
    }

    /// The command of the check family that stands for this check.
    pub fn command(&self) -> (command: CheckCommand)
        ensures
            command == self.command_spec(),
    {
        match self {
            MemberCheck::Format => CheckCommand::Format,
            MemberCheck::Lint => CheckCommand::Lint,
        }
    }
}

/// What a step asks of the outside world.
#[derive(Clone, Copy, Debug, PartialEq, Eq, Structural)]
pub enum Operation {
    /// Put the question to the user; the reply becomes the answer.
    Ask(Prompt),
    /// List the members of the workspace of one sort; the reply becomes the
    /// current listing.
    ListMembers(WorkspaceMemberType),
    /// Find out whether the current toolchain is a nightly one.
    CheckToolchain,
    /// Make sure that the tool is installed.
    Install(Tool),
    /// Run the tool.
    Run(Tool),
    /// Run the check on each member of the current listing that the
    /// filters keep, in the order of the listing.
    RunEach(MemberCheck),
}

/// One step of a script: an operation, and the condition on which it is
/// carried out. A step whose condition does not hold is passed over.
#[derive(Clone, Copy, Debug, PartialEq, Eq, Structural)]
pub struct Step {
    pub when: Condition,
    pub op: Operation,
}

impl Step {
    /// The step that carries out `op` in every case.
    pub open spec fn always_spec(op: Operation) -> Step {
        Step { when: Condition::Always, op }
    }

    /// The step that asks for confirmation unless an answer is already known.
    pub open spec fn confirm_spec(prompt: Prompt) -> Step {
        Step { when: Condition::Unanswered, op: Operation::Ask(prompt) }
    }

    /// The step that carries out `op` only once the user has answered yes.
    pub open spec fn confirmed_spec(op: Operation) -> Step {
        Step { when: Condition::Confirmed, op }
    }

    /// The step that carries out `op` only on a nightly toolchain.
    pub open spec fn nightly_spec(op: Operation) -> Step {
        Step { when: Condition::Nightly, op }
    }

    /// The same step inside a part of a script that as a whole needs the
    /// user's consent: a step that was carried out in every case now waits
    /// for a yes, and any other condition stays as it is.
    pub open spec fn gated_spec(self) -> Step {
        match self.when {
            Condition::Always => Step { when: Condition::Confirmed, op: self.op },
            _ => self,
        }
    }

    /// The step that carries out `op` in every case.
    pub fn always(op: Operation) -> (step: Step)
        ensures
            step == Step::always_spec(op),
    {
        Step { when: Condition::Always, op }
    }

    /// The step that asks for confirmation unless an answer is already known.
    pub fn confirm(prompt: Prompt) -> (step: Step)
        ensures
            step == Step::confirm_spec(prompt),
    {
        Step { when: Condition::Unanswered, op: Operation::Ask(prompt) }
    }

    /// The step that carries out `op` only once the user has answered yes.
    pub fn confirmed(op: Operation) -> (step: Step)
        ensures
            step == Step::confirmed_spec(op),
    {
        Step { when: Condition::Confirmed, op }
    }

    /// The step that carries out `op` only on a nightly toolchain.
    pub fn nightly(op: Operation) -> (step: Step)
        ensures
            step == Step::nightly_spec(op),
    {
        Step { when: Condition::Nightly, op }
    }

    /// The same step inside a part of a script that as a whole needs the
    /// user's consent.
    pub fn gated(&self) -> (step: Step)
        ensures
            step == self.gated_spec(),
    {
        match self.when {
            Condition::Always => Step { when: Condition::Confirmed, op: self.op },
            _ => *self,
        }
    }
}

/// A script in which every step waits for the user's consent.
pub open spec fn gated(script: Seq<Step>) -> Seq<Step> {
    script.map_values(|step: Step| step.gated_spec())
}

/// Appends to `script` the steps of `part`, each made to wait for the
/// user's consent.
pub fn push_gated(script: &mut Vec<Step>, part: &Vec<Step>)
    ensures
        final(script)@ == old(script)@ + gated(part@),
{
    let mut i: usize = 0;
    while i < part.len()
        invariant
            i <= part.len(),
            script@ == old(script)@ + gated(part@).take(i as int),
        decreases part.len() - i,
    {
        script.push(part[i].gated());
        assert(gated(part@).take(i + 1) == gated(part@).take(i as int).push(
            part@[i as int].gated_spec(),
        ));
        i = i + 1;
    }
    assert(gated(part@).take(i as int) == gated(part@));
}

/// Appends to `script` the steps of `part`.
pub fn push_all(script: &mut Vec<Step>, part: &Vec<Step>)
    ensures
        final(script)@ == old(script)@ + part@,
{
    let mut i: usize = 0;
    while i < part.len()
        invariant
            i <= part.len(),
            script@ == old(script)@ + part@.take(i as int),
        decreases part.len() - i,
    {
        script.push(part[i]);
        assert(part@.take(i + 1) == part@.take(i as int).push(part@[i as int]));
        i = i + 1;
    }
    assert(part@.take(i as int) == part@);
}

} // verus!
