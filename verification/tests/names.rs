use xtask_common::commands::check::CheckCommand;
use xtask_common::commands::dependencies::{DependenciesCmdArgs, DependenciesSubCommand};
use xtask_common::commands::{ParseError, Profile, Target};
use xtask_common::script::MemberCheck;
use xtask_common::utils::workspace::{contains_name, keeps, WorkspaceMemberType};

fn strings(list: &[&str]) -> Vec<String> {
    list.iter().map(|s| s.to_string()).collect()
}

#[test]
fn names_of_targets() {
    assert_eq!(Target::Crates.to_string(), "crates");
    assert_eq!(Target::Examples.to_string(), "examples");
    assert_eq!(Target::Workspace.to_string(), "workspace");
}

#[test]
fn targets_by_name() {
    assert_eq!(Target::from_str("crates"), Ok(Target::Crates));
    assert_eq!(Target::from_str("examples"), Ok(Target::Examples));
    assert_eq!(Target::from_str("workspace"), Ok(Target::Workspace));
    assert_eq!(Target::from_str("Crates"), Err(ParseError::VariantNotFound));
    assert_eq!(Target::from_str("all"), Err(ParseError::VariantNotFound));
    assert_eq!(Target::from_str(""), Err(ParseError::VariantNotFound));
}

#[test]
fn targets_in_order_and_by_default() {
    assert_eq!(
        Target::variants(),
        vec![Target::Crates, Target::Examples, Target::Workspace]
    );
    assert_eq!(Target::default(), Target::Workspace);
}

#[test]
fn names_of_profiles() {
    assert_eq!(Profile::All.to_string(), "all");
    assert_eq!(Profile::Debug.to_string(), "debug");
    assert_eq!(Profile::Release.to_string(), "release");
    assert_eq!(Profile::from_str("release"), Ok(Profile::Release));
    assert_eq!(Profile::from_str("debug"), Ok(Profile::Debug));
    assert_eq!(Profile::from_str("all"), Ok(Profile::All));
    assert_eq!(Profile::from_str("fast"), Err(ParseError::VariantNotFound));
    assert_eq!(
        Profile::variants(),
        vec![Profile::All, Profile::Debug, Profile::Release]
    );
    assert_eq!(Profile::default(), Profile::Debug);
}

#[test]
fn names_of_check_commands() {
    assert_eq!(CheckCommand::Audit.to_string(), "audit");
    assert_eq!(CheckCommand::Format.to_string(), "format");
    assert_eq!(CheckCommand::Lint.to_string(), "lint");
    assert_eq!(CheckCommand::Typos.to_string(), "typos");
    assert_eq!(CheckCommand::All.to_string(), "all");
    assert_eq!(
        CheckCommand::variants(),
        vec![
            CheckCommand::Audit,
            CheckCommand::Format,
            CheckCommand::Lint,
            CheckCommand::Typos,
            CheckCommand::All
        ]
    );
    assert_eq!(
        CheckCommand::from_str("lints"),
        Err(ParseError::VariantNotFound)
    );
}

#[test]
fn names_of_dependencies_commands() {
    assert_eq!(DependenciesSubCommand::All.to_string(), "all");
    assert_eq!(DependenciesSubCommand::Deny.to_string(), "deny");
    assert_eq!(DependenciesSubCommand::Unused.to_string(), "unused");
    assert_eq!(
        DependenciesSubCommand::variants(),
        vec![
            DependenciesSubCommand::All,
            DependenciesSubCommand::Deny,
            DependenciesSubCommand::Unused
        ]
    );
    assert_eq!(DependenciesSubCommand::default(), DependenciesSubCommand::All);
    assert_eq!(
        DependenciesSubCommand::from_str("udeps"),
        Err(ParseError::VariantNotFound)
    );
}

#[test]
fn every_name_leads_back_to_its_variant() {
    for v in Target::variants() {
        assert_eq!(Target::from_str(&v.to_string()), Ok(v));
    }
    for v in Profile::variants() {
        assert_eq!(Profile::from_str(&v.to_string()), Ok(v));
    }
    for v in CheckCommand::variants() {
        assert_eq!(CheckCommand::from_str(&v.to_string()), Ok(v));
    }
    for v in DependenciesSubCommand::variants() {
        assert_eq!(DependenciesSubCommand::from_str(&v.to_string()), Ok(v));
    }
}

#[test]
fn the_named_dependencies_command_is_the_one_run() {
    let args = DependenciesCmdArgs {
        command: Some(DependenciesSubCommand::Unused),
    };
    assert_eq!(args.get_command(), DependenciesSubCommand::Unused);
}

#[test]
fn sorts_and_targets_correspond() {
    assert_eq!(WorkspaceMemberType::Crate.target(), Target::Crates);
    assert_eq!(WorkspaceMemberType::Example.target(), Target::Examples);
    assert_eq!(MemberCheck::Format.command(), CheckCommand::Format);
    assert_eq!(MemberCheck::Lint.command(), CheckCommand::Lint);
}

#[test]
fn contains_name_finds_exact_names_only() {
    let list = strings(&["alpha", "beta"]);
    assert!(contains_name(&list, &"alpha".to_string()));
    assert!(contains_name(&list, &"beta".to_string()));
    assert!(!contains_name(&list, &"alph".to_string()));
    assert!(!contains_name(&list, &"Alpha".to_string()));
    assert!(!contains_name(&strings(&[]), &"alpha".to_string()));
}

#[test]
fn keeps_applies_both_filters() {
    let name = "alpha".to_string();
    assert!(keeps(&strings(&[]), &strings(&[]), &name));
    assert!(!keeps(&strings(&["alpha"]), &strings(&[]), &name));
    assert!(keeps(&strings(&["beta"]), &strings(&[]), &name));
    assert!(keeps(&strings(&[]), &strings(&["alpha", "beta"]), &name));
    assert!(!keeps(&strings(&[]), &strings(&["beta"]), &name));
    assert!(!keeps(&strings(&["alpha"]), &strings(&["alpha"]), &name));
}
