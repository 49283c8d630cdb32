//! The check family: audit, format, lint, typos, and all of them in turn.

use vstd::prelude::*;

pub mod requests;

use crate::commands::check::requests::{check_requests, lemma_check_requests};
use crate::commands::{ParseError, Target};
use crate::script::{gated, push_all, push_gated, MemberCheck, Operation, Prompt, Step, Tool};
use crate::session::{Env, Session, SessionView};
use crate::utils::same_text;
use crate::utils::workspace::WorkspaceMemberType;

verus! {

/// A command of the check family.
#[derive(Clone, Copy, Debug, PartialEq, Eq, Structural)]
pub enum CheckCommand {
    /// Audit the dependencies and fix what can be fixed.
    Audit,
    /// Format the code.
    Format,
    /// Lint the code and fix what can be fixed.
    Lint,
    /// Find typos in the source code and fix them.
    Typos,
    /// Run all the checks, in the order above.
    All,
}

impl CheckCommand {
    /// The name of the variant, in lower case.
    pub open spec fn name_spec(self) -> Seq<char> {
        match self {
            CheckCommand::Audit => "audit"@,
            CheckCommand::Format => "format"@,
            CheckCommand::Lint => "lint"@,
            CheckCommand::Typos => "typos"@,
            CheckCommand::All => "all"@,
        }
    }

    /// The variant of the given name, if there is one. Names are matched
    /// letter for letter.
    pub open spec fn named(name: Seq<char>) -> Option<CheckCommand> {
        if name == "audit"@ {
            Some(CheckCommand::Audit)
        } else if name == "format"@ {
            Some(CheckCommand::Format)
        } else if name == "lint"@ {
            Some(CheckCommand::Lint)
        } else if name == "typos"@ {
            Some(CheckCommand::Typos)
        } else if name == "all"@ {
            Some(CheckCommand::All)
        } else {
            None
        }
    }

    /// The variants, in the order of their declaration.
    pub open spec fn variants_spec() -> Seq<CheckCommand> {
        seq![CheckCommand::Audit, CheckCommand::Format, CheckCommand::Lint, CheckCommand::Typos, CheckCommand::All]
    }

    /// The name of the variant, in lower case.
    pub fn to_string(&self) -> (name: String)
        ensures
            name@ == self.name_spec(),
    {
        match self {
            CheckCommand::Audit => "audit".to_owned(),
            CheckCommand::Format => "format".to_owned(),
            CheckCommand::Lint => "lint".to_owned(),
            CheckCommand::Typos => "typos".to_owned(),
            CheckCommand::All => "all".to_owned(),
        }
    }

    /// The variant of the given name, or the error where no variant has
    /// that name.
    pub fn from_str(name: &str) -> (found: Result<CheckCommand, ParseError>)
        ensures
            found == match CheckCommand::named(name@) {
                Some(variant) => Ok::<CheckCommand, ParseError>(variant),
                None => Err::<CheckCommand, ParseError>(ParseError::VariantNotFound),
            },
    {
        if same_text(name, "audit") {
            Ok(CheckCommand::Audit)
        } else if same_text(name, "format") {
            Ok(CheckCommand::Format)
        } else if same_text(name, "lint") {
            Ok(CheckCommand::Lint)
        } else if same_text(name, "typos") {
            Ok(CheckCommand::Typos)
        } else if same_text(name, "all") {
            Ok(CheckCommand::All)
        } else {
            Err(ParseError::VariantNotFound)
        }
    }

    /// The variants, in the order of their declaration.
    pub fn variants() -> (all: Vec<CheckCommand>)
        ensures
            all@ == CheckCommand::variants_spec(),
    {
        let mut all: Vec<CheckCommand> = Vec::new();
        all.push(CheckCommand::Audit);
        all.push(CheckCommand::Format);
        all.push(CheckCommand::Lint);
        all.push(CheckCommand::Typos);
        all.push(CheckCommand::All);
        assert(all@ =~= CheckCommand::variants_spec());
        all
    }

    /// A name stands for one variant only: the variant named by the name of
    /// a variant is that variant. Every variant is among the variants.
    pub proof fn lemma_named(self)
        ensures
            CheckCommand::named(self.name_spec()) == Some(self),
            CheckCommand::variants_spec().contains(self),
    {
        reveal_strlit("audit");
        reveal_strlit("format");
        reveal_strlit("lint");
        reveal_strlit("typos");
        reveal_strlit("all");
        assert("audit"@.len() == 5 && "audit"@[0] == 'a');
        assert("format"@.len() == 6 && "format"@[0] == 'f');
        assert("lint"@.len() == 4 && "lint"@[0] == 'l');
        assert("typos"@.len() == 5 && "typos"@[0] == 't');
        assert("all"@.len() == 3 && "all"@[0] == 'a');
        assert(CheckCommand::variants_spec()[0] == CheckCommand::Audit);
        assert(CheckCommand::variants_spec()[1] == CheckCommand::Format);
        assert(CheckCommand::variants_spec()[2] == CheckCommand::Lint);
        assert(CheckCommand::variants_spec()[3] == CheckCommand::Typos);
        assert(CheckCommand::variants_spec()[4] == CheckCommand::All);
    }
}

/// The arguments of the check family.
#[derive(Debug, PartialEq, Eq)]
pub struct CheckCmdArgs {
    /// The target to check.
    pub target: Target,
    /// The names of the crates to leave out.
    pub exclude: Vec<String>,
    /// Where not empty, the names of the only crates to take in.
    pub only: Vec<String>,
    /// The check to run.
    pub command: CheckCommand,
}

impl Clone for CheckCmdArgs {
    fn clone(&self) -> (copy: CheckCmdArgs)
        ensures
            copy.target == self.target,
            copy.command == self.command,
            copy.exclude.deep_view() == self.exclude.deep_view(),
            copy.only.deep_view() == self.only.deep_view(),
    {
        let copy = CheckCmdArgs {
            target: self.target,
            exclude: self.exclude.clone(),
            only: self.only.clone(),
            command: self.command,
        };
        assert(copy.exclude.deep_view() =~= self.exclude.deep_view());
        assert(copy.only.deep_view() =~= self.only.deep_view());
        copy
    }
}

/// The steps of a check that runs one tool for the whole workspace: ask
/// for consent with `prompt`, install the tool, and run it.
pub open spec fn tool_steps(tool: Tool, prompt: Prompt) -> Seq<Step> {
    seq![
        Step::confirm_spec(prompt),
        Step::confirmed_spec(Operation::Install(tool)),
        Step::confirmed_spec(Operation::Run(tool)),
    ]
}

/// The script of a check that runs one tool for the whole workspace, under
/// the name `command`.
///
/// On the whole workspace the check asks its own question and then does
/// what it does on the crates: the tool looks at the whole workspace
/// whichever way it is started, so it runs once.
pub open spec fn tool_script(tool: Tool, command: CheckCommand, target: Target) -> Seq<Step> {
    match target {
        Target::Workspace => seq![Step::confirm_spec(Prompt { command, target })] + tool_steps(
            tool,
            Prompt { command, target: Target::Crates },
        ),
        _ => tool_steps(tool, Prompt { command, target }),
    }
}

/// The script of a per-member check on the members of one sort: list them,
/// ask for consent, and run the check on each member that the filters keep.
pub open spec fn sort_script(check: MemberCheck, sort: WorkspaceMemberType) -> Seq<Step> {
    seq![
        Step::always_spec(Operation::ListMembers(sort)),
        Step::confirm_spec(Prompt { command: check.command_spec(), target: sort.target_spec() }),
        Step::confirmed_spec(Operation::RunEach(check)),
    ]
}

/// The script of a per-member check.
///
/// On the whole workspace the check asks once and then, if the answer is
/// yes, does on the crates and then on the examples what it does on each of
/// them alone.
pub open spec fn member_script(check: MemberCheck, target: Target) -> Seq<Step> {
    match target {
        Target::Crates => sort_script(check, WorkspaceMemberType::Crate),
        Target::Examples => sort_script(check, WorkspaceMemberType::Example),
        Target::Workspace => seq![
            Step::confirm_spec(Prompt { command: check.command_spec(), target }),
        ] + gated(sort_script(check, WorkspaceMemberType::Crate)) + gated(
            sort_script(check, WorkspaceMemberType::Example),
        ),
    }
}

/// The script of a command of the check family.
///
/// `All` puts its own question, whatever answer is already known, and then
/// runs the four checks in turn on the same target.
pub open spec fn check_script(command: CheckCommand, target: Target) -> Seq<Step> {
    match command {
        CheckCommand::Audit => tool_script(Tool::Audit, CheckCommand::Audit, target),
        CheckCommand::Format => member_script(MemberCheck::Format, target),
        CheckCommand::Lint => member_script(MemberCheck::Lint, target),
        CheckCommand::Typos => tool_script(Tool::Typos, CheckCommand::Typos, target),
        CheckCommand::All => seq![
            Step::always_spec(Operation::Ask(Prompt { command: CheckCommand::All, target })),
        ] + tool_script(Tool::Audit, CheckCommand::Audit, target) + member_script(
            MemberCheck::Format,
            target,
        ) + member_script(MemberCheck::Lint, target) + tool_script(
            Tool::Typos,
            CheckCommand::Typos,
            target,
        ),
    }
}

fn run_tool(tool: Tool, command: CheckCommand, target: &Target) -> (script: Vec<Step>)
    ensures
        script@ == tool_script(tool, command, *target),
{
    let mut script: Vec<Step> = Vec::new();
    match target {
        Target::Workspace => {
            script.push(Step::confirm(Prompt { command, target: Target::Workspace }));
            script.push(Step::confirm(Prompt { command, target: Target::Crates }));
        },
        _ => {
            script.push(Step::confirm(Prompt { command, target: *target }));
        },
    }
    script.push(Step::confirmed(Operation::Install(tool)));
    script.push(Step::confirmed(Operation::Run(tool)));
    assert(script@ =~= tool_script(tool, command, *target));
    script
}

fn run_on_sort(check: MemberCheck, sort: WorkspaceMemberType) -> (script: Vec<Step>)
    ensures
        script@ == sort_script(check, sort),
{
    let mut script: Vec<Step> = Vec::new();
    script.push(Step::always(Operation::ListMembers(sort)));
    script.push(Step::confirm(Prompt { command: check.command(), target: sort.target() }));
    script.push(Step::confirmed(Operation::RunEach(check)));
    assert(script@ =~= sort_script(check, sort));
    script
}

fn run_on_members(check: MemberCheck, target: &Target) -> (script: Vec<Step>)
    ensures
        script@ == member_script(check, *target),
{
    match target {
        Target::Crates => run_on_sort(check, WorkspaceMemberType::Crate),
        Target::Examples => run_on_sort(check, WorkspaceMemberType::Example),
        Target::Workspace => {
            let mut script: Vec<Step> = Vec::new();
            script.push(Step::confirm(Prompt { command: check.command(), target: *target }));
            assert(script@ =~= seq![
                Step::confirm_spec(Prompt { command: check.command_spec(), target: *target }),
            ]);
            let crates = run_on_sort(check, WorkspaceMemberType::Crate);
            push_gated(&mut script, &crates);
            let examples = run_on_sort(check, WorkspaceMemberType::Example);
            push_gated(&mut script, &examples);
            script
        },
    }
}

/// The script of the audit check on `target`.
pub fn run_audit(target: &Target) -> (script: Vec<Step>)
    ensures
        script@ == check_script(CheckCommand::Audit, *target),
{
    run_tool(Tool::Audit, CheckCommand::Audit, target)
}

/// The script of the format check on `target`.
pub fn run_format(target: &Target) -> (script: Vec<Step>)
    ensures
        script@ == check_script(CheckCommand::Format, *target),
{
    run_on_members(MemberCheck::Format, target)
}

/// The script of the lint check on `target`.
pub fn run_lint(target: &Target) -> (script: Vec<Step>)
    ensures
        script@ == check_script(CheckCommand::Lint, *target),
{
    run_on_members(MemberCheck::Lint, target)
}

/// The script of the typos check on `target`.
pub fn run_typos(target: &Target) -> (script: Vec<Step>)
    ensures
        script@ == check_script(CheckCommand::Typos, *target),
{
    run_tool(Tool::Typos, CheckCommand::Typos, target)
}

/// The script of any command of the check family on `target`.
fn check_steps(command: &CheckCommand, target: &Target) -> (script: Vec<Step>)
    ensures
        script@ == check_script(*command, *target),
{
    match command {
        CheckCommand::Audit => run_audit(target),
        CheckCommand::Format => run_format(target),
        CheckCommand::Lint => run_lint(target),
        CheckCommand::Typos => run_typos(target),
        CheckCommand::All => {
            let mut script: Vec<Step> = Vec::new();
            script.push(
                Step::always(Operation::Ask(Prompt { command: CheckCommand::All, target: *target })),
            );
            assert(script@ =~= seq![
                Step::always_spec(
                    Operation::Ask(Prompt { command: CheckCommand::All, target: *target }),
                ),
            ]);
            let audit = run_audit(target);
            push_all(&mut script, &audit);
            let format = run_format(target);
            push_all(&mut script, &format);
            let lint = run_lint(target);
            push_all(&mut script, &lint);
            let typos = run_typos(target);
            push_all(&mut script, &typos);
            script
        },
    }
}

/// Begins the command that `args` describe: the session that carries out
/// its script, with the filters of `args` and with `answer` as the answer
/// that is already known, if any. Nothing has been requested yet, and where
/// nothing fails the session will make the requests of
/// [`requests::check_requests`].
pub fn handle_command(args: CheckCmdArgs, answer: Option<bool>) -> (session: Session)
    ensures
        session@ == SessionView::start(
            check_script(args.command, args.target),
            args.exclude.deep_view(),
            args.only.deep_view(),
            answer,
        ),
        forall|env: Env| #[trigger]
            session@.remaining(env) == check_requests(
                args.command,
                args.target,
                args.exclude.deep_view(),
                args.only.deep_view(),
                answer,
                env,
            ),
{
    let script = check_steps(&args.command, &args.target);
    proof {
        assert forall|env: Env|
            (#[trigger] SessionView::start(
                script@,
                args.exclude.deep_view(),
                args.only.deep_view(),
                answer,
            ).remaining(env)) == check_requests(
                args.command,
                args.target,
                args.exclude.deep_view(),
                args.only.deep_view(),
                answer,
                env,
            ) by {
            lemma_check_requests(
                args.command,
                args.target,
                args.exclude.deep_view(),
                args.only.deep_view(),
                answer,
                env,
            );
        }
    }
    Session::new(script, args.exclude, args.only, answer)
}

} // verus!
