use xtask_common::commands::check::{handle_command, CheckCmdArgs, CheckCommand};
use xtask_common::commands::dependencies;
use xtask_common::commands::dependencies::{DependenciesCmdArgs, DependenciesSubCommand};
use xtask_common::commands::Target;
use xtask_common::job::Job;
use xtask_common::script::{MemberCheck, Prompt, Tool};
use xtask_common::session::{Failure, Reply, Request, Session};
use xtask_common::utils::workspace::WorkspaceMemberType;

struct World {
    answer: bool,
    nightly: bool,
    crates: Vec<&'static str>,
    examples: Vec<&'static str>,
    /// The index, among the runs, of the run that fails, if one does.
    failing_run: Option<usize>,
}

fn world(answer: bool) -> World {
    World {
        answer,
        nightly: true,
        crates: vec!["alpha", "beta", "gamma"],
        examples: vec!["demo", "tour"],
        failing_run: None,
    }
}

fn names(list: &[&str]) -> Vec<String> {
    list.iter().map(|s| s.to_string()).collect()
}

/// Carries the session out in the world and gives the requests made, the
/// last of which is the `Finish`.
fn play(mut session: Session, world: &World) -> Vec<Request> {
    let mut made = Vec::new();
    let mut runs = 0;
    let mut reply = Reply::Ready;
    loop {
        let request = session.advance(reply);
        reply = match &request {
            Request::Ask(_) => Reply::Answer(world.answer),
            Request::ListMembers(WorkspaceMemberType::Crate) => {
                Reply::Members(names(&world.crates))
            }
            Request::ListMembers(WorkspaceMemberType::Example) => {
                Reply::Members(names(&world.examples))
            }
            Request::CheckToolchain => Reply::Nightly(world.nightly),
            Request::Install(_) => Reply::Installed,
            Request::Run(_) => {
                runs += 1;
                Reply::Exited(world.failing_run != Some(runs - 1))
            }
            Request::Finish(_) => {
                made.push(request);
                return made;
            }
        };
        made.push(request);
        assert!(made.len() < 1000);
    }
}

fn check(command: CheckCommand, target: Target, exclude: &[&str], only: &[&str]) -> CheckCmdArgs {
    CheckCmdArgs {
        target,
        exclude: names(exclude),
        only: names(only),
        command,
    }
}

fn ask(command: CheckCommand, target: Target) -> Request {
    Request::Ask(Prompt { command, target })
}

fn run_member(check: MemberCheck, name: &str) -> Request {
    Request::Run(Job::Member(check, name.to_string()))
}

fn jobs(requests: &[Request]) -> Vec<&Job> {
    requests
        .iter()
        .filter_map(|r| match r {
            Request::Run(job) => Some(job),
            _ => None,
        })
        .collect()
}

#[test]
fn audit_with_consent_installs_then_runs() {
    let session = handle_command(check(CheckCommand::Audit, Target::Crates, &[], &[]), None);
    assert_eq!(
        play(session, &world(true)),
        vec![
            ask(CheckCommand::Audit, Target::Crates),
            Request::Install(Tool::Audit),
            Request::Run(Job::Tool(Tool::Audit)),
            Request::Finish(Ok(())),
        ]
    );
}

#[test]
fn audit_without_consent_does_nothing_and_succeeds() {
    let session = handle_command(check(CheckCommand::Audit, Target::Examples, &[], &[]), None);
    assert_eq!(
        play(session, &world(false)),
        vec![
            ask(CheckCommand::Audit, Target::Examples),
            Request::Finish(Ok(())),
        ]
    );
}

#[test]
fn a_known_answer_is_not_asked_for_again() {
    let session = handle_command(
        check(CheckCommand::Typos, Target::Crates, &[], &[]),
        Some(true),
    );
    assert_eq!(
        play(session, &world(false)),
        vec![
            Request::Install(Tool::Typos),
            Request::Run(Job::Tool(Tool::Typos)),
            Request::Finish(Ok(())),
        ]
    );
    let session = handle_command(
        check(CheckCommand::Typos, Target::Crates, &[], &[]),
        Some(false),
    );
    assert_eq!(play(session, &world(true)), vec![Request::Finish(Ok(()))]);
}

#[test]
fn audit_on_workspace_asks_once_and_runs_once() {
    let session = handle_command(check(CheckCommand::Audit, Target::Workspace, &[], &[]), None);
    assert_eq!(
        play(session, &world(true)),
        vec![
            ask(CheckCommand::Audit, Target::Workspace),
            Request::Install(Tool::Audit),
            Request::Run(Job::Tool(Tool::Audit)),
            Request::Finish(Ok(())),
        ]
    );
}

#[test]
fn format_on_crates_runs_on_each_crate_in_order() {
    let session = handle_command(check(CheckCommand::Format, Target::Crates, &[], &[]), None);
    assert_eq!(
        play(session, &world(true)),
        vec![
            Request::ListMembers(WorkspaceMemberType::Crate),
            ask(CheckCommand::Format, Target::Crates),
            run_member(MemberCheck::Format, "alpha"),
            run_member(MemberCheck::Format, "beta"),
            run_member(MemberCheck::Format, "gamma"),
            Request::Finish(Ok(())),
        ]
    );
}

#[test]
fn format_without_consent_still_lists_the_members_first() {
    let session = handle_command(check(CheckCommand::Format, Target::Crates, &[], &[]), None);
    assert_eq!(
        play(session, &world(false)),
        vec![
            Request::ListMembers(WorkspaceMemberType::Crate),
            ask(CheckCommand::Format, Target::Crates),
            Request::Finish(Ok(())),
        ]
    );
}

#[test]
fn excluded_members_are_left_out() {
    let session = handle_command(
        check(CheckCommand::Lint, Target::Crates, &["beta"], &[]),
        Some(true),
    );
    assert_eq!(
        play(session, &world(true)),
        vec![
            Request::ListMembers(WorkspaceMemberType::Crate),
            run_member(MemberCheck::Lint, "alpha"),
            run_member(MemberCheck::Lint, "gamma"),
            Request::Finish(Ok(())),
        ]
    );
}

#[test]
fn only_the_named_members_are_taken_in() {
    let session = handle_command(
        check(CheckCommand::Lint, Target::Crates, &[], &["gamma", "alpha", "other"]),
        Some(true),
    );
    assert_eq!(
        play(session, &world(true)),
        vec![
            Request::ListMembers(WorkspaceMemberType::Crate),
            run_member(MemberCheck::Lint, "alpha"),
            run_member(MemberCheck::Lint, "gamma"),
            Request::Finish(Ok(())),
        ]
    );
}

#[test]
fn exclusion_wins_over_inclusion() {
    let session = handle_command(
        check(CheckCommand::Format, Target::Crates, &["alpha"], &["alpha", "beta"]),
        Some(true),
    );
    assert_eq!(
        play(session, &world(true)),
        vec![
            Request::ListMembers(WorkspaceMemberType::Crate),
            run_member(MemberCheck::Format, "beta"),
            Request::Finish(Ok(())),
        ]
    );
}

#[test]
fn filters_that_keep_nothing_run_nothing() {
    let session = handle_command(
        check(CheckCommand::Format, Target::Examples, &[], &["alpha"]),
        Some(true),
    );
    assert_eq!(
        play(session, &world(true)),
        vec![
            Request::ListMembers(WorkspaceMemberType::Example),
            Request::Finish(Ok(())),
        ]
    );
}

#[test]
fn format_on_workspace_does_crates_then_examples() {
    let session = handle_command(check(CheckCommand::Format, Target::Workspace, &[], &[]), None);
    assert_eq!(
        play(session, &world(true)),
        vec![
            ask(CheckCommand::Format, Target::Workspace),
            Request::ListMembers(WorkspaceMemberType::Crate),
            run_member(MemberCheck::Format, "alpha"),
            run_member(MemberCheck::Format, "beta"),
            run_member(MemberCheck::Format, "gamma"),
            Request::ListMembers(WorkspaceMemberType::Example),
            run_member(MemberCheck::Format, "demo"),
            run_member(MemberCheck::Format, "tour"),
            Request::Finish(Ok(())),
        ]
    );
}

#[test]
fn format_on_workspace_without_consent_lists_nothing() {
    let session = handle_command(check(CheckCommand::Format, Target::Workspace, &[], &[]), None);
    assert_eq!(
        play(session, &world(false)),
        vec![
            ask(CheckCommand::Format, Target::Workspace),
            Request::Finish(Ok(())),
        ]
    );
}

#[test]
fn workspace_jobs_are_those_of_crates_and_examples_together() {
    for command in [
        CheckCommand::Audit,
        CheckCommand::Format,
        CheckCommand::Lint,
        CheckCommand::Typos,
        CheckCommand::All,
    ] {
        let on = |target: Target| {
            play(
                handle_command(check(command, target, &["beta"], &[]), None),
                &world(true),
            )
        };
        let whole = on(Target::Workspace);
        let crates = on(Target::Crates);
        let examples = on(Target::Examples);
        for job in jobs(&whole) {
            assert!(jobs(&crates).contains(&job) || jobs(&examples).contains(&job));
        }
        for job in jobs(&crates).into_iter().chain(jobs(&examples)) {
            assert!(jobs(&whole).contains(&job));
        }
        if command == CheckCommand::Format || command == CheckCommand::Lint {
            let mut both = jobs(&crates);
            both.extend(jobs(&examples));
            assert_eq!(jobs(&whole), both);
        }
    }
}

#[test]
fn all_asks_even_where_an_answer_is_known_and_runs_the_four_checks_in_order() {
    let session = handle_command(
        check(CheckCommand::All, Target::Examples, &[], &[]),
        Some(false),
    );
    assert_eq!(
        play(session, &world(true)),
        vec![
            ask(CheckCommand::All, Target::Examples),
            Request::Install(Tool::Audit),
            Request::Run(Job::Tool(Tool::Audit)),
            Request::ListMembers(WorkspaceMemberType::Example),
            run_member(MemberCheck::Format, "demo"),
            run_member(MemberCheck::Format, "tour"),
            Request::ListMembers(WorkspaceMemberType::Example),
            run_member(MemberCheck::Lint, "demo"),
            run_member(MemberCheck::Lint, "tour"),
            Request::Install(Tool::Typos),
            Request::Run(Job::Tool(Tool::Typos)),
            Request::Finish(Ok(())),
        ]
    );
}

#[test]
fn all_without_consent_only_lists() {
    let session = handle_command(check(CheckCommand::All, Target::Crates, &[], &[]), None);
    assert_eq!(
        play(session, &world(false)),
        vec![
            ask(CheckCommand::All, Target::Crates),
            Request::ListMembers(WorkspaceMemberType::Crate),
            Request::ListMembers(WorkspaceMemberType::Crate),
            Request::Finish(Ok(())),
        ]
    );
    let session = handle_command(check(CheckCommand::All, Target::Workspace, &[], &[]), None);
    assert_eq!(
        play(session, &world(false)),
        vec![
            ask(CheckCommand::All, Target::Workspace),
            Request::Finish(Ok(())),
        ]
    );
}

#[test]
fn a_failing_run_ends_the_command_at_once() {
    let mut w = world(true);
    w.failing_run = Some(1);
    let session = handle_command(check(CheckCommand::Format, Target::Workspace, &[], &[]), None);
    assert_eq!(
        play(session, &w),
        vec![
            ask(CheckCommand::Format, Target::Workspace),
            Request::ListMembers(WorkspaceMemberType::Crate),
            run_member(MemberCheck::Format, "alpha"),
            run_member(MemberCheck::Format, "beta"),
            Request::Finish(Err(Failure::Unsuccessful(Job::Member(
                MemberCheck::Format,
                "beta".to_string()
            )))),
        ]
    );
}

#[test]
fn a_failing_check_stops_the_checks_that_follow_it_in_all() {
    let mut w = world(true);
    w.failing_run = Some(0);
    let session = handle_command(check(CheckCommand::All, Target::Crates, &[], &[]), None);
    assert_eq!(
        play(session, &w),
        vec![
            ask(CheckCommand::All, Target::Crates),
            Request::Install(Tool::Audit),
            Request::Run(Job::Tool(Tool::Audit)),
            Request::Finish(Err(Failure::Unsuccessful(Job::Tool(Tool::Audit)))),
        ]
    );
}

#[test]
fn a_program_that_cannot_be_started_ends_the_command() {
    let mut session = handle_command(
        check(CheckCommand::Typos, Target::Crates, &[], &[]),
        Some(true),
    );
    assert_eq!(session.advance(Reply::Ready), Request::Install(Tool::Typos));
    assert_eq!(
        session.advance(Reply::Installed),
        Request::Run(Job::Tool(Tool::Typos))
    );
    let end = Request::Finish(Err(Failure::NotStarted(
        Job::Tool(Tool::Typos),
        "No such file or directory (os error 2)".to_string(),
    )));
    assert_eq!(
        session.advance(Reply::NotStarted(
            "No such file or directory (os error 2)".to_string()
        )),
        end
    );
}

#[test]
fn a_tool_that_cannot_be_installed_ends_the_command() {
    let mut session = handle_command(
        check(CheckCommand::Audit, Target::Crates, &[], &[]),
        Some(true),
    );
    assert_eq!(session.advance(Reply::Ready), Request::Install(Tool::Audit));
    assert_eq!(
        session.advance(Reply::NotInstalled(
            "crate 'cargo-audit' should be installed".to_string()
        )),
        Request::Finish(Err(Failure::NotInstalled(
            Tool::Audit,
            "crate 'cargo-audit' should be installed".to_string()
        )))
    );
}

#[test]
fn an_ended_session_repeats_its_outcome() {
    let mut session = handle_command(
        check(CheckCommand::Audit, Target::Crates, &[], &[]),
        Some(true),
    );
    session.advance(Reply::Ready);
    session.advance(Reply::Installed);
    let end = Request::Finish(Err(Failure::Unsuccessful(Job::Tool(Tool::Audit))));
    assert_eq!(session.advance(Reply::Exited(false)), end);
    assert_eq!(session.advance(Reply::Exited(true)), end);
    assert_eq!(session.advance(Reply::Answer(true)), end);

    let mut session = handle_command(
        check(CheckCommand::Audit, Target::Crates, &[], &[]),
        Some(false),
    );
    assert_eq!(session.advance(Reply::Ready), Request::Finish(Ok(())));
    assert_eq!(session.advance(Reply::Exited(false)), Request::Finish(Ok(())));
}

#[test]
fn a_reply_of_the_wrong_kind_gets_the_same_request_again() {
    let mut session = handle_command(check(CheckCommand::Format, Target::Crates, &[], &[]), None);
    let list = Request::ListMembers(WorkspaceMemberType::Crate);
    assert_eq!(session.advance(Reply::Answer(true)), list);
    assert_eq!(session.advance(Reply::Answer(true)), list);
    assert_eq!(session.advance(Reply::Exited(false)), list);
    assert_eq!(session.advance(Reply::Ready), list);
    assert_eq!(
        session.advance(Reply::Members(names(&["one"]))),
        ask(CheckCommand::Format, Target::Crates)
    );
    assert_eq!(
        session.advance(Reply::Members(names(&["two"]))),
        ask(CheckCommand::Format, Target::Crates)
    );
    assert_eq!(
        session.advance(Reply::Answer(true)),
        run_member(MemberCheck::Format, "one")
    );
    assert_eq!(
        session.advance(Reply::Installed),
        run_member(MemberCheck::Format, "one")
    );
    assert_eq!(session.advance(Reply::Exited(true)), Request::Finish(Ok(())));
}

#[test]
fn an_empty_workspace_runs_nothing() {
    let mut w = world(true);
    w.crates = vec![];
    w.examples = vec![];
    let session = handle_command(check(CheckCommand::Lint, Target::Workspace, &[], &[]), None);
    assert_eq!(
        play(session, &w),
        vec![
            ask(CheckCommand::Lint, Target::Workspace),
            Request::ListMembers(WorkspaceMemberType::Crate),
            Request::ListMembers(WorkspaceMemberType::Example),
            Request::Finish(Ok(())),
        ]
    );
}

#[test]
fn an_empty_script_ends_at_once() {
    let mut session = Session::new(vec![], vec![], vec![], None);
    assert_eq!(session.advance(Reply::Ready), Request::Finish(Ok(())));
}

#[test]
fn deny_installs_and_runs() {
    let session = dependencies::handle_command(DependenciesCmdArgs {
        command: Some(DependenciesSubCommand::Deny),
    });
    assert_eq!(
        play(session, &world(false)),
        vec![
            Request::Install(Tool::Deny),
            Request::Run(Job::Tool(Tool::Deny)),
            Request::Finish(Ok(())),
        ]
    );
}

#[test]
fn unused_runs_on_a_nightly_toolchain_only() {
    let args = DependenciesCmdArgs {
        command: Some(DependenciesSubCommand::Unused),
    };
    assert_eq!(
        play(dependencies::handle_command(args), &world(true)),
        vec![
            Request::CheckToolchain,
            Request::Install(Tool::Udeps),
            Request::Run(Job::Tool(Tool::Udeps)),
            Request::Finish(Ok(())),
        ]
    );
    let mut stable = world(true);
    stable.nightly = false;
    assert_eq!(
        play(dependencies::handle_command(args), &stable),
        vec![Request::CheckToolchain, Request::Finish(Ok(()))]
    );
}

#[test]
fn no_named_dependencies_command_means_all_of_them() {
    let args = DependenciesCmdArgs { command: None };
    assert_eq!(args.get_command(), DependenciesSubCommand::All);
    assert_eq!(
        play(dependencies::handle_command(args), &world(true)),
        vec![
            Request::Install(Tool::Deny),
            Request::Run(Job::Tool(Tool::Deny)),
            Request::CheckToolchain,
            Request::Install(Tool::Udeps),
            Request::Run(Job::Tool(Tool::Udeps)),
            Request::Finish(Ok(())),
        ]
    );
}

#[test]
fn a_failing_deny_stops_the_unused_check() {
    let mut w = world(true);
    w.failing_run = Some(0);
    let args = DependenciesCmdArgs {
        command: Some(DependenciesSubCommand::All),
    };
    assert_eq!(
        play(dependencies::handle_command(args), &w),
        vec![
            Request::Install(Tool::Deny),
            Request::Run(Job::Tool(Tool::Deny)),
            Request::Finish(Err(Failure::Unsuccessful(Job::Tool(Tool::Deny)))),
        ]
    );
}
