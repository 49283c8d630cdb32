//! The dependencies family: licence and advisory checks, unused
//! dependencies, and both in turn.

use vstd::prelude::*;

use crate::commands::ParseError;
use crate::job::JobView;
use crate::script::{push_all, Operation, Step, Tool};
use crate::session::{Env, Progress, RequestView, Session, SessionView};
use crate::utils::same_text;

verus! {

/// A command of the dependencies family.
#[derive(Clone, Copy, Debug, PartialEq, Eq, Structural)]
pub enum DependenciesSubCommand {
    /// Run all the dependency checks, in the order below.
    All,
    /// Check that every dependency meets the requirements, with `cargo deny`.
    Deny,
    /// Look for unused dependencies, with `cargo udeps`.
    Unused,
}

impl DependenciesSubCommand {
    /// The name of the variant, in lower case.
    pub open spec fn name_spec(self) -> Seq<char> {
        match self {
            DependenciesSubCommand::All => "all"@,
            DependenciesSubCommand::Deny => "deny"@,
            DependenciesSubCommand::Unused => "unused"@,
        }
    }

    /// The variant of the given name, if there is one. Names are matched
    /// letter for letter.
    pub open spec fn named(name: Seq<char>) -> Option<DependenciesSubCommand> {
        if name == "all"@ {
            Some(DependenciesSubCommand::All)
        } else if name == "deny"@ {
            Some(DependenciesSubCommand::Deny)
        } else if name == "unused"@ {
            Some(DependenciesSubCommand::Unused)
        } else {
            None
        }
    }

    /// The variants, in the order of their declaration.
    pub open spec fn variants_spec() -> Seq<DependenciesSubCommand> {
        seq![DependenciesSubCommand::All, DependenciesSubCommand::Deny, DependenciesSubCommand::Unused]
    }

    /// The name of the variant, in lower case.
    pub fn to_string(&self) -> (name: String)
        ensures
            name@ == self.name_spec(),
    {
        match self {
            DependenciesSubCommand::All => "all".to_owned(),
            DependenciesSubCommand::Deny => "deny".to_owned(),
            DependenciesSubCommand::Unused => "unused".to_owned(),
        }
    }

    /// The variant of the given name, or the error where no variant has
    /// that name.
    pub fn from_str(name: &str) -> (found: Result<DependenciesSubCommand, ParseError>)
        ensures
            found == match DependenciesSubCommand::named(name@) {
                Some(variant) => Ok::<DependenciesSubCommand, ParseError>(variant),
                None => Err::<DependenciesSubCommand, ParseError>(ParseError::VariantNotFound),
            },
    {
        if same_text(name, "all") {
            Ok(DependenciesSubCommand::All)
        } else if same_text(name, "deny") {
            Ok(DependenciesSubCommand::Deny)
        } else if same_text(name, "unused") {
            Ok(DependenciesSubCommand::Unused)
        } else {
            Err(ParseError::VariantNotFound)
        }
    }

    /// The variants, in the order of their declaration.
    pub fn variants() -> (all: Vec<DependenciesSubCommand>)
        ensures
            all@ == DependenciesSubCommand::variants_spec(),
    {
        let mut all: Vec<DependenciesSubCommand> = Vec::new();
        all.push(DependenciesSubCommand::All);
        all.push(DependenciesSubCommand::Deny);
        all.push(DependenciesSubCommand::Unused);
        assert(all@ =~= DependenciesSubCommand::variants_spec());
        all
    }

    /// A name stands for one variant only: the variant named by the name of
    /// a variant is that variant. Every variant is among the variants.
    pub proof fn lemma_named(self)
        ensures
            DependenciesSubCommand::named(self.name_spec()) == Some(self),
            DependenciesSubCommand::variants_spec().contains(self),
    {
        reveal_strlit("all");
        reveal_strlit("deny");
        reveal_strlit("unused");
        assert("all"@.len() == 3 && "all"@[0] == 'a');
        assert("deny"@.len() == 4 && "deny"@[0] == 'd');
        assert("unused"@.len() == 6 && "unused"@[0] == 'u');
        assert(DependenciesSubCommand::variants_spec()[0] == DependenciesSubCommand::All);
        assert(DependenciesSubCommand::variants_spec()[1] == DependenciesSubCommand::Deny);
        assert(DependenciesSubCommand::variants_spec()[2] == DependenciesSubCommand::Unused);
    }
}

impl Default for DependenciesSubCommand {
    fn default() -> (variant: DependenciesSubCommand)
        ensures
            variant == DependenciesSubCommand::All,
    {
        DependenciesSubCommand::All
    }
}

/// The arguments of the dependencies family.
#[derive(Clone, Copy, Debug, PartialEq, Eq, Structural)]
pub struct DependenciesCmdArgs {
    /// The command to run, if one is named.
    pub command: Option<DependenciesSubCommand>,
}

impl DependenciesCmdArgs {
    /// The command to run: the one that is named, else the default.
    pub open spec fn command_spec(self) -> DependenciesSubCommand {
        match self.command {
            Some(command) => command,
            None => DependenciesSubCommand::All,
        }
    }

    /// The command to run: the one that is named, else the default.
    pub fn get_command(&self) -> (command: DependenciesSubCommand)
        ensures
            command == self.command_spec(),
    {
        match self.command {
            Some(command) => command,
            None => DependenciesSubCommand::default(),
        }
    }
}

/// The script of `cargo deny`: install the tool and run it.
pub open spec fn deny_script() -> Seq<Step> {
    seq![
        Step::always_spec(Operation::Install(Tool::Deny)),
        Step::always_spec(Operation::Run(Tool::Deny)),
    ]
}

/// The script of `cargo udeps`: find out whether the toolchain is a nightly
/// one and, only if it is, install the tool and run it.
pub open spec fn udeps_script() -> Seq<Step> {
    seq![
        Step::always_spec(Operation::CheckToolchain),
        Step::nightly_spec(Operation::Install(Tool::Udeps)),
        Step::nightly_spec(Operation::Run(Tool::Udeps)),
    ]
}

/// The script of a command of the dependencies family.
pub open spec fn dependencies_script(command: DependenciesSubCommand) -> Seq<Step> {
    match command {
        DependenciesSubCommand::Deny => deny_script(),
        DependenciesSubCommand::Unused => udeps_script(),
        DependenciesSubCommand::All => deny_script() + udeps_script(),
    }
}

/// The script of `cargo deny`.
pub fn run_cargo_deny() -> (script: Vec<Step>)
    ensures
        script@ == deny_script(),
{
    let mut script: Vec<Step> = Vec::new();
    script.push(Step::always(Operation::Install(Tool::Deny)));
    script.push(Step::always(Operation::Run(Tool::Deny)));
    assert(script@ =~= deny_script());
    script
}

/// The script of `cargo udeps`.
pub fn run_cargo_udeps() -> (script: Vec<Step>)
    ensures
        script@ == udeps_script(),
{
    let mut script: Vec<Step> = Vec::new();
    script.push(Step::always(Operation::CheckToolchain));
    script.push(Step::nightly(Operation::Install(Tool::Udeps)));
    script.push(Step::nightly(Operation::Run(Tool::Udeps)));
    assert(script@ =~= udeps_script());
    script
}

/// Begins the command that `args` describe: the session that carries out
/// its script. The dependency checks ask no question and look at the whole
/// workspace, so the session has no filters and no answer. Nothing has been
/// requested yet, and where nothing fails the session will make the
/// requests of [`dependencies_requests`].
pub fn handle_command(args: DependenciesCmdArgs) -> (session: Session)
    ensures
        session@ == SessionView::start(
            dependencies_script(args.command_spec()),
            Seq::empty(),
            Seq::empty(),
            None,
        ),
        forall|env: Env| #[trigger]
            session@.remaining(env) == dependencies_requests(args.command_spec(), env),
{
    let script = match args.get_command() {
        DependenciesSubCommand::Deny => run_cargo_deny(),
        DependenciesSubCommand::Unused => run_cargo_udeps(),
        DependenciesSubCommand::All => {
            let mut script = run_cargo_deny();
            let unused = run_cargo_udeps();
            push_all(&mut script, &unused);
            script
        },
    };
    let excluded: Vec<String> = Vec::new();
    let only: Vec<String> = Vec::new();
    proof {
        assert(excluded.deep_view() =~= Seq::empty());
        assert(only.deep_view() =~= Seq::empty());
        assert forall|env: Env|
            (#[trigger] SessionView::start(script@, Seq::empty(), Seq::empty(), None).remaining(
                env,
            )) == dependencies_requests(args.command_spec(), env) by {
            lemma_dependencies_requests(args.command_spec(), env);
        }
    }
    Session::new(script, excluded, only, None)
}

/// The requests of `cargo deny`, where nothing fails: install the tool,
/// run it.
pub open spec fn deny_requests() -> Seq<RequestView> {
    seq![RequestView::Install(Tool::Deny), RequestView::Run(JobView::Tool(Tool::Deny))]
}

/// The requests of `cargo udeps`, where nothing fails: the question about
/// the toolchain and, on a nightly one only, install the tool, run it.
pub open spec fn udeps_requests(env: Env) -> Seq<RequestView> {
    seq![RequestView::CheckToolchain] + if env.nightly {
        seq![RequestView::Install(Tool::Udeps), RequestView::Run(JobView::Tool(Tool::Udeps))]
    } else {
        Seq::empty()
    }
}

/// The requests of a command of the dependencies family, where nothing
/// fails. `All` makes those of `cargo deny`, then those of `cargo udeps`.
pub open spec fn dependencies_requests(command: DependenciesSubCommand, env: Env) -> Seq<
    RequestView,
> {
    match command {
        DependenciesSubCommand::Deny => deny_requests(),
        DependenciesSubCommand::Unused => udeps_requests(env),
        DependenciesSubCommand::All => deny_requests() + udeps_requests(env),
    }
}

proof fn lemma_deny_script(at: Progress, env: Env)
    requires
        at.has_part(deny_script()),
    ensures
        at.requests(env) == deny_requests() + at.past(2).requests(env),
{
    let part = deny_script();
    assert(at.script[at.step as int + 0] == part[0]);
    assert(at.script[at.step as int + 1] == part[1]);
    at.lemma_carried_out(env);
    assert(at.taught(env.reply_to(RequestView::Install(Tool::Deny))).next_step() == at.past(1));
    at.past(1).lemma_carried_out(env);
    assert(at.past(1).taught(
        env.reply_to(RequestView::Run(JobView::Tool(Tool::Deny))),
    ).next_step() == at.past(2));
    assert(at.requests(env) =~= deny_requests() + at.past(2).requests(env));
}

proof fn lemma_udeps_script(at: Progress, env: Env)
    requires
        at.has_part(udeps_script()),
    ensures
        at.requests(env) == udeps_requests(env) + (Progress {
            nightly: Some(env.nightly),
            ..at.past(3)
        }).requests(env),
{
    let part = udeps_script();
    assert(at.script[at.step as int + 0] == part[0]);
    assert(at.script[at.step as int + 1] == part[1]);
    assert(at.script[at.step as int + 2] == part[2]);
    let at1 = Progress { nightly: Some(env.nightly), ..at.past(1) };
    let at2 = Progress { nightly: Some(env.nightly), ..at.past(2) };
    let at3 = Progress { nightly: Some(env.nightly), ..at.past(3) };
    at.lemma_carried_out(env);
    assert(at.taught(env.reply_to(RequestView::CheckToolchain)).next_step() == at1);
    if env.nightly {
        at1.lemma_carried_out(env);
        assert(at1.taught(env.reply_to(RequestView::Install(Tool::Udeps))).next_step() == at2);
        at2.lemma_carried_out(env);
        assert(at2.taught(env.reply_to(RequestView::Run(JobView::Tool(Tool::Udeps)))).next_step()
            == at3);
    } else {
        at1.lemma_passed_over(env);
        assert(at1.next_step() == at2);
        at2.lemma_passed_over(env);
        assert(at2.next_step() == at3);
    }
    assert(at.requests(env) =~= udeps_requests(env) + at3.requests(env));
}

/// The script of each command of the dependencies family, carried out from
/// the start in a world where nothing fails, makes exactly the requests of
/// [`dependencies_requests`], in that order.
pub proof fn lemma_dependencies_requests(command: DependenciesSubCommand, env: Env)
    ensures
        Progress::start(
            dependencies_script(command),
            Seq::empty(),
            Seq::empty(),
            None,
        ).requests(env) == dependencies_requests(command, env),
{
    let script = dependencies_script(command);
    let at = Progress::start(script, Seq::empty(), Seq::empty(), None);
    let none = Seq::<Step>::empty();
    match command {
        DependenciesSubCommand::Deny => {
            lemma_deny_script(at, env);
            at.past(2).lemma_passed_over(env);
            assert(at.requests(env) =~= deny_requests());
        },
        DependenciesSubCommand::Unused => {
            lemma_udeps_script(at, env);
            let end = Progress { nightly: Some(env.nightly), ..at.past(3) };
            end.lemma_passed_over(env);
            assert(at.requests(env) =~= udeps_requests(env));
        },
        DependenciesSubCommand::All => {
            assert(at.has_part(none + deny_script() + udeps_script())) by {
                assert(script =~= none + deny_script() + udeps_script());
            }
            at.lemma_part_of(at, none, deny_script(), udeps_script());
            lemma_deny_script(at, env);
            assert(at.has_part(deny_script() + udeps_script() + none)) by {
                assert(script =~= deny_script() + udeps_script() + none);
            }
            at.lemma_part_of(at.past(2), deny_script(), udeps_script(), none);
            lemma_udeps_script(at.past(2), env);
            let end = Progress { nightly: Some(env.nightly), ..at.past(2).past(3) };
            assert(end.at_end());
            end.lemma_passed_over(env);
            assert(at.requests(env) =~= deny_requests() + udeps_requests(env));
        },
    }
}

} // verus!
