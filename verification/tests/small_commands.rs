use feature::cli::base::{base_refname, BaseArgs};
use feature::cli::db_cmd::{delete_failed, delete_step, Args as DbArgs, DbChange, DeleteStep};
use feature::cli::def::StartArgs;
use feature::cli::error::CliError;
use feature::cli::graph::{git_args as graph_git_args, Args as GraphArgs};
use feature::cli::log::Args as LogArgs;
use feature::cli::protect::{ProtectArgs, ProtectChange};
use feature::cli::term::{term_width, trunc_term_width};
use feature::cli::update::{Args as UpdateArgs, BaseRef, UpdatePlan};
use feature::cli::version_log::{git_failed, VersionLogArgs};
use feature::text::render_plain;

fn s(x: &str) -> String {
    x.to_string()
}

fn msg(e: &CliError) -> String {
    e.message()
}

#[test]
fn base_target_uses_named_branch_when_found() {
    let args = BaseArgs { base: s("main"), branch: Some(s("feat")) };
    assert_eq!(args.target(Some(s("feat")), Some(s("other"))).unwrap(), "feat");
}

#[test]
fn base_target_reports_missing_named_branch() {
    let args = BaseArgs { base: s("main"), branch: Some(s("nope")) };
    let e = args.target(None, Some(s("other"))).unwrap_err();
    assert_eq!(msg(&e), "Branch not found: nope");
    assert_eq!(e.code(), 1);
}

#[test]
fn base_target_defaults_to_current_branch() {
    let args = BaseArgs { base: s("main"), branch: None };
    assert_eq!(args.target(None, Some(s("work"))).unwrap(), "work");
    let e = args.target(None, None).unwrap_err();
    assert_eq!(
        msg(&e),
        "Not currently on a branch! You can switch to a branch or specify one manually\nwith the --branch option."
    );
}

#[test]
fn base_branch_must_exist() {
    let args = BaseArgs { base: s("develop"), branch: None };
    assert_eq!(args.base_branch(Some(s("develop"))).unwrap(), "develop");
    assert_eq!(msg(&args.base_branch(None).unwrap_err()), "Branch not found: develop");
}

#[test]
fn base_refname_prefers_upstream() {
    assert_eq!(base_refname(Some(s("refs/remotes/origin/main")), s("refs/heads/main")), "refs/remotes/origin/main");
    assert_eq!(base_refname(None, s("refs/heads/main")), "refs/heads/main");
}

fn update_args(dry_run: bool, resume: bool, abort: bool, skip: bool, base: Option<&str>) -> UpdateArgs {
    UpdateArgs { dry_run, resume, abort, skip, base: base.map(s) }
}

#[test]
fn update_rebase_control_flags_in_order() {
    assert_eq!(update_args(false, true, true, false, None).rebase_control().unwrap(), vec!["rebase", "--continue"]);
    assert_eq!(update_args(false, false, true, true, None).rebase_control().unwrap(), vec!["rebase", "--abort"]);
    assert_eq!(update_args(false, false, false, true, None).rebase_control().unwrap(), vec!["rebase", "--skip"]);
    assert!(update_args(false, false, false, false, None).rebase_control().is_none());
}

fn base_ref(name: &str, refname: &str, is_remote: bool) -> BaseRef {
    BaseRef { name: s(name), refname: s(refname), is_remote }
}

#[test]
fn update_resolve_base_errors() {
    let a = update_args(false, false, false, false, None);
    assert_eq!(msg(&a.resolve_base(false, None, None).unwrap_err()), "Not currently on a branch! Nothing to update.");
    assert_eq!(
        msg(&a.resolve_base(true, None, None).unwrap_err()),
        "No base branch found. You can:\n\n\u{2022} Manually specify the base branch: \"feature update <BASE_BRANCH>\"\n\u{2022} Set the base branch permanently: \"feature base <BASE_BRANCH>\""
    );
    let named = update_args(false, false, false, false, Some("dev"));
    assert_eq!(msg(&named.resolve_base(true, None, None).unwrap_err()), "Branch not found: dev");
    let b = named.resolve_base(true, Some(base_ref("dev", "refs/heads/dev", false)), None).unwrap();
    assert_eq!(b.refname, "refs/heads/dev");
    let r = a.resolve_base(true, None, Some(base_ref("origin/main", "refs/remotes/origin/main", true))).unwrap();
    assert_eq!(r.name, "origin/main");
}

#[test]
fn update_plan_dry_run_and_rebase() {
    let b = base_ref("origin/main", "refs/remotes/origin/main", true);
    match update_args(true, false, false, false, None).plan(&b) {
        UpdatePlan::DryRun(l) => assert_eq!(l, "Using base: origin/main"),
        _ => panic!("expected a dry run"),
    }
    match update_args(false, false, false, false, None).plan(&b) {
        UpdatePlan::Rebase { fetch, fetched, git_args } => {
            assert!(fetch);
            assert_eq!(render_plain(&fetched), "Fetched origin/main");
            assert_eq!(git_args, vec!["rebase", "refs/remotes/origin/main"]);
        },
        _ => panic!("expected a rebase"),
    }
}

#[test]
fn graph_args_with_and_without_format() {
    assert_eq!(graph_git_args(None), vec!["log", "--graph", "--all", "--color=always"]);
    assert_eq!(graph_git_args(Some(s("%h"))), vec!["log", "--graph", "--all", "--color=always", "--pretty=%h"]);
    let a = GraphArgs { format: None };
    assert_eq!(a.chosen_format(Some(s("cfg"))), Some(s("cfg")));
    let a = GraphArgs { format: Some(s("cli")) };
    assert_eq!(a.chosen_format(Some(s("cfg"))), Some(s("cli")));
}

#[test]
fn log_args_use_given_or_configured_format() {
    assert_eq!(LogArgs { format: None }.git_args("%h %s"), vec!["log", "--all", "--pretty=%h %s"]);
    assert_eq!(LogArgs { format: Some(s("%H")) }.git_args("%h %s"), vec!["log", "--all", "--pretty=%H"]);
}

#[test]
fn protect_named_or_current_branch() {
    let a = ProtectArgs { unset: false, branch: Some(s("main")) };
    assert_eq!(a.run(None).unwrap(), ProtectChange::Protect(s("main")));
    let a = ProtectArgs { unset: true, branch: None };
    assert_eq!(a.run(Some(s("dev"))).unwrap(), ProtectChange::Unprotect(s("dev")));
    assert_eq!(msg(&a.run(None).unwrap_err()), "Not currently on a branch");
}

#[test]
fn version_log_range_and_errors() {
    let a = VersionLogArgs { rev: None };
    assert_eq!(a.revision(), "HEAD");
    assert_eq!(a.run(Some(s("v1.2.3"))).unwrap(), vec!["log", "v1.2.3.."]);
    assert_eq!(msg(&a.run(None).unwrap_err()), "Failed to find a version reachable from HEAD");
    let b = VersionLogArgs { rev: Some(s("abc123")) };
    assert_eq!(msg(&b.run(None).unwrap_err()), "Failed to find a version reachable from abc123");
    assert_eq!(b.run(Some(s("v1.2.3"))).unwrap(), vec!["log", "v1.2.3..abc123"]);
    assert_eq!(msg(&git_failed(Some(128))), "Git failed with exit status: Some(128)");
    assert_eq!(msg(&git_failed(Some(-1))), "Git failed with exit status: Some(-1)");
    assert_eq!(msg(&git_failed(None)), "Git failed with exit status: None");
}

#[test]
fn db_changes() {
    let add = DbArgs::Add { base: s("main"), branch: None };
    assert!(add.needs_current_branch());
    assert_eq!(add.change(Some(s("feat"))), Some(DbChange::Insert { branch: s("feat"), base: s("main") }));
    let add = DbArgs::Add { base: s("main"), branch: Some(s("x")) };
    assert!(!add.needs_current_branch());
    assert_eq!(add.change(None), Some(DbChange::Insert { branch: s("x"), base: s("main") }));
    assert_eq!(DbArgs::Remove { branch: s("x") }.change(None), Some(DbChange::Forget { branch: s("x") }));
    assert_eq!(DbArgs::Clean.change(None), Some(DbChange::Clean));
    assert_eq!(DbArgs::Delete { force: true }.change(None), None);
}

#[test]
fn db_delete_steps() {
    assert_eq!(delete_step(false, true, None), DeleteStep::Missing(s("Database does not exist")));
    assert_eq!(delete_step(true, true, None), DeleteStep::Remove);
    assert_eq!(
        delete_step(true, false, None),
        DeleteStep::Ask(s("Are you sure you want to delete the database? This is irreversable (but honestly it's not that hard to remake it)"))
    );
    assert_eq!(delete_step(true, false, Some(true)), DeleteStep::Remove);
    assert_eq!(delete_step(true, false, Some(false)), DeleteStep::Keep);
    let e = delete_failed("permission denied");
    assert_eq!(msg(&e), "Failed to delete database file: permission denied");
    assert_eq!(e.code(), 4);
}

#[test]
fn start_args_join_words() {
    let a = StartArgs { sep: None, words: vec![s("fix"), s("the"), s("bug")] };
    assert_eq!(a.separator(), "-");
    assert_eq!(a.branch_name(), "fix-the-bug");
    let a = StartArgs { sep: Some(s("_")), words: vec![s("a"), s("b")] };
    assert_eq!(a.branch_name(), "a_b");
}

#[test]
fn terminal_width_and_truncation() {
    assert_eq!(term_width(Some((24, 132))), 132);
    assert_eq!(term_width(None), 80);
    assert_eq!(trunc_term_width("hello world", "...", false, 5), "hello world");
    assert_eq!(trunc_term_width("hello world", "...", true, 8), "hello...");
    assert_eq!(trunc_term_width("short", "...", true, 80), "short");
}

#[test]
fn truncation_can_exceed_the_width_on_an_emoji_sequence() {
    // The cut counts '☺' as 1 and U+FE0F as 0, but the pair is 2 wide.
    assert_eq!(trunc_term_width("\u{263a}\u{fe0f}x", "", true, 2), "\u{263a}\u{fe0f}x");
    assert_eq!(trunc_term_width("abc", "", true, 2), "ab");
}
