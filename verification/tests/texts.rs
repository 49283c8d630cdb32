use xtask_common::commands::check::CheckCommand;
use xtask_common::commands::{Target, CARGO_NIGHTLY_MSG};
use xtask_common::job::Job;
use xtask_common::script::{MemberCheck, Prompt, Tool};
use xtask_common::session::Failure;
use xtask_common::utils::{get_command_line_from_command, join, same_text, Params};
use xtask_common::versions::TYPOS_VERSION;

fn strings(list: &[&str]) -> Vec<String> {
    list.iter().map(|s| s.to_string()).collect()
}

fn prompt(command: CheckCommand, target: Target) -> &'static str {
    Prompt { command, target }.text()
}

#[test]
fn prompts_of_audit() {
    let on_one = "This will run the audit check with autofix mode enabled.";
    assert_eq!(prompt(CheckCommand::Audit, Target::Crates), on_one);
    assert_eq!(prompt(CheckCommand::Audit, Target::Examples), on_one);
    assert_eq!(
        prompt(CheckCommand::Audit, Target::Workspace),
        "This will run audit checks on all targets."
    );
}

#[test]
fn prompts_of_format() {
    assert_eq!(
        prompt(CheckCommand::Format, Target::Crates),
        "This will run format checks on all crates of the workspace."
    );
    assert_eq!(
        prompt(CheckCommand::Format, Target::Examples),
        "This will run format checks on all examples of the workspace."
    );
    assert_eq!(
        prompt(CheckCommand::Format, Target::Workspace),
        "This will run format check on all members of the workspace."
    );
}

#[test]
fn prompts_of_lint() {
    assert_eq!(
        prompt(CheckCommand::Lint, Target::Crates),
        "This will run lint fix on all crates of the workspace."
    );
    assert_eq!(
        prompt(CheckCommand::Lint, Target::Examples),
        "This will run lint fix on all examples of the workspace."
    );
    assert_eq!(
        prompt(CheckCommand::Lint, Target::Workspace),
        "This will run lint fix on all members of the workspace."
    );
}

#[test]
fn prompts_of_typos() {
    let on_one = "This will look for typos in the source code check and auto-fix them.";
    assert_eq!(prompt(CheckCommand::Typos, Target::Crates), on_one);
    assert_eq!(prompt(CheckCommand::Typos, Target::Examples), on_one);
    assert_eq!(
        prompt(CheckCommand::Typos, Target::Workspace),
        "This will look for typos on all targets."
    );
}

#[test]
fn prompt_of_all_is_the_same_on_every_target() {
    for target in Target::variants() {
        assert_eq!(
            prompt(CheckCommand::All, target),
            "This will run all the checks with autofix on all members of the workspace."
        );
    }
}

#[test]
fn tools_are_installed_from_their_crates() {
    assert_eq!(Tool::Audit.crate_name(), "cargo-audit");
    assert_eq!(Tool::Audit.features(), Some("fix"));
    assert_eq!(Tool::Audit.version(), None);
    assert_eq!(Tool::Typos.crate_name(), "typos-cli");
    assert_eq!(Tool::Typos.features(), None);
    assert_eq!(Tool::Typos.version(), Some(TYPOS_VERSION));
    assert_eq!(Tool::Deny.crate_name(), "cargo-deny");
    assert_eq!(Tool::Deny.features(), None);
    assert_eq!(Tool::Deny.version(), None);
    assert_eq!(Tool::Udeps.crate_name(), "cargo-udeps");
    assert_eq!(Tool::Udeps.features(), None);
    assert_eq!(Tool::Udeps.version(), None);
}

#[test]
fn job_of_audit() {
    let job = Job::Tool(Tool::Audit);
    assert_eq!(job.program(), "cargo");
    assert_eq!(job.args(), strings(&["audit", "-q", "--color", "always", "fix"]));
    assert_eq!(job.title(), "cargo audit");
    assert_eq!(job.complaint(), "Audit check execution failed");
}

#[test]
fn job_of_typos() {
    let job = Job::Tool(Tool::Typos);
    assert_eq!(job.program(), "typos");
    assert_eq!(job.args(), strings(&["--write-changes"]));
    assert_eq!(job.title(), "typos");
    assert_eq!(
        job.complaint(),
        "Some typos have been found and cannot be fixed."
    );
}

#[test]
fn job_of_deny() {
    let job = Job::Tool(Tool::Deny);
    assert_eq!(job.program(), "cargo");
    assert_eq!(job.args(), strings(&["deny", "check"]));
    assert_eq!(job.title(), "cargo deny");
    assert_eq!(
        job.complaint(),
        "Some dependencies don't meet the requirements!"
    );
}

#[test]
fn job_of_udeps() {
    let job = Job::Tool(Tool::Udeps);
    assert_eq!(job.program(), "cargo");
    assert_eq!(job.args(), strings(&["udeps"]));
    assert_eq!(job.title(), "cargo udeps");
    assert_eq!(job.complaint(), "Unused dependencies found!");
}

#[test]
fn job_of_format_names_the_member() {
    let job = Job::Member(MemberCheck::Format, "my-crate".to_string());
    assert_eq!(job.program(), "cargo");
    assert_eq!(
        job.args(),
        strings(&["fmt", "-p", "my-crate", "--", "--color=always"])
    );
    assert_eq!(job.title(), "cargo fmt");
    assert_eq!(job.complaint(), "Format check execution failed for my-crate");
}

#[test]
fn job_of_lint_names_the_member() {
    let job = Job::Member(MemberCheck::Lint, "my-crate".to_string());
    assert_eq!(job.program(), "cargo");
    assert_eq!(
        job.args(),
        strings(&[
            "clippy",
            "--no-deps",
            "--fix",
            "--allow-dirty",
            "--allow-staged",
            "--color=always",
            "-p",
            "my-crate",
            "--",
            "--deny",
            "warnings"
        ])
    );
    assert_eq!(job.title(), "cargo clippy");
    assert_eq!(job.complaint(), "Lint fix execution failed for my-crate");
}

#[test]
fn a_copy_of_a_job_is_the_same_job() {
    let job = Job::Member(MemberCheck::Lint, "x".to_string());
    assert_eq!(job.clone(), job);
    assert_eq!(Job::Tool(Tool::Deny).clone(), Job::Tool(Tool::Deny));
}

#[test]
fn messages_of_failures() {
    let job = Job::Member(MemberCheck::Format, "alpha".to_string());
    assert_eq!(
        Failure::Unsuccessful(job.clone()).message(),
        "Format check execution failed for alpha"
    );
    assert_eq!(
        Failure::NotStarted(job, "permission denied".to_string()).message(),
        "Failed to execute cargo fmt: permission denied"
    );
    assert_eq!(
        Failure::NotStarted(Job::Tool(Tool::Typos), "not found".to_string()).message(),
        "Failed to execute typos: not found"
    );
    assert_eq!(
        Failure::NotInstalled(Tool::Audit, "no network".to_string()).message(),
        "no network"
    );
    assert_eq!(
        Failure::Unsuccessful(Job::Tool(Tool::Audit)).clone().message(),
        "Audit check execution failed"
    );
}

#[test]
fn the_nightly_message_has_two_lines() {
    let lines: Vec<&str> = CARGO_NIGHTLY_MSG.lines().collect();
    assert_eq!(
        lines,
        vec![
            "You must use 'cargo +nightly' to run nightly checks.",
            "Install a nightly toolchain with 'rustup toolchain install nightly'."
        ]
    );
}

#[test]
fn join_puts_the_separator_between_the_parts() {
    assert_eq!(join(&strings(&[]), ", "), "");
    assert_eq!(join(&strings(&["a"]), ", "), "a");
    assert_eq!(join(&strings(&["a", "b", "c"]), ", "), "a, b, c");
    assert_eq!(join(&strings(&["", ""]), "-"), "-");
    assert_eq!(join(&strings(&["a", "b"]), ""), "ab");
}

#[test]
fn join_agrees_with_the_standard_library() {
    let parts = strings(&["x", "", "yz", " "]);
    assert_eq!(join(&parts, " "), parts.join(" "));
}

#[test]
fn command_line_quotes_each_argument() {
    assert_eq!(
        get_command_line_from_command("cargo", &strings(&["fmt", "-p", "alpha"])),
        "cargo \"fmt\" \"-p\" \"alpha\""
    );
    assert_eq!(
        get_command_line_from_command("typos", &strings(&["--write-changes"])),
        "typos \"--write-changes\""
    );
}

#[test]
fn command_line_without_arguments_keeps_the_space() {
    assert_eq!(get_command_line_from_command("cargo", &strings(&[])), "cargo ");
}

#[test]
fn command_line_of_a_job() {
    let job = Job::Tool(Tool::Deny);
    assert_eq!(
        get_command_line_from_command(job.program(), &job.args()),
        "cargo \"deny\" \"check\""
    );
}

#[test]
fn same_text_compares_letter_for_letter() {
    assert!(same_text("crates", "crates"));
    assert!(!same_text("crates", "Crates"));
    assert!(!same_text("crates", "crate"));
    assert!(same_text("", ""));
}

#[test]
fn params_from_one_text() {
    assert_eq!(Params::from("build").params, strings(&["build"]));
}

#[test]
fn params_from_a_vector_and_from_an_array() {
    assert_eq!(
        Params::from(vec!["a", "b"]).params,
        strings(&["a", "b"])
    );
    assert_eq!(Params::from(["a", "b", "c"]).params, strings(&["a", "b", "c"]));
    let none: [&str; 0] = [];
    assert_eq!(Params::from(none).params, strings(&[]));
    assert_eq!(Params::from(Vec::<&str>::new()).params, strings(&[]));
}

#[test]
fn params_are_shown_with_spaces_between() {
    assert_eq!(Params::from(["test", "--release", "-p", "x"]).to_string(), "test --release -p x");
    assert_eq!(Params::from("one").to_string(), "one");
    assert_eq!(Params::from(Vec::<&str>::new()).to_string(), "");
}

#[test]
fn params_add_appends_what_the_right_side_converts_to() {
    let sum = Params::from(["a", "b"]) + "c";
    assert_eq!(sum.params, strings(&["a", "b", "c"]));
    let sum = sum + ["d", "e"];
    assert_eq!(sum.params, strings(&["a", "b", "c", "d", "e"]));
    let sum = sum + vec!["f"];
    assert_eq!(sum.to_string(), "a b c d e f");
    let sum = Params::from("x") + Params::from(["y", "z"]);
    assert_eq!(sum.params, strings(&["x", "y", "z"]));
    let copy = sum.clone();
    assert_eq!(copy, sum);
}
