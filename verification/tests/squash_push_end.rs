use feature::cli::display::Person;
use feature::cli::end::{check_merged, delete_refspec, BaseInfo, EndArgs, EndFacts, EndStep, SwitchTo};
use feature::cli::error::CliError;
use feature::cli::push::{
    after_base_check, after_upstream_check, display_push_rejection, display_push_update, Args as PushArgs,
    CheckOutcome, PushCheckStatus, PushRejection, PushStep, PushUpdate, PushUpdateKind,
};
use feature::cli::squash::{
    build_message, display_squashed, no_base, reflog_message, squash_commit, SquashArgs, SquashStep, WalkedCommit,
};
use feature::text::render_plain;

fn s(x: &str) -> String {
    x.to_string()
}

fn person(name: &str, email: &str) -> Person {
    Person { name: s(name), email: s(email) }
}

fn commit(id: &str, who: &Person, message: &str) -> WalkedCommit {
    WalkedCommit { id: s(id), author: Person { name: who.name.clone(), email: who.email.clone() }, message: s(message) }
}

#[test]
fn squash_message_lists_commits_and_co_authors() {
    let me = person("Me", "me@x");
    let bob = person("Bob", "bob@x");
    let walk = vec![
        commit("c3", &me, "Third\n"),
        commit("c2", &bob, "  Second  "),
        commit("c1", &bob, "First"),
        commit("base", &me, "Base commit"),
        commit("c0", &bob, "Older"),
    ];
    let args = SquashArgs { edit: false, base: None, branch: None, message: vec![] };
    let subject = args.subject("feat", "main");
    assert_eq!(subject, "Squash feat onto main");
    let msg = build_message(subject, &walk, "base", &me);
    assert_eq!(
        msg,
        "Squash feat onto main\n\n* Third\n\n* Second\n\n* First\n\nCo-authored-by: Bob <bob@x>\nCo-authored-by: Bob <bob@x>"
    );
    let args = SquashArgs { edit: false, base: None, branch: None, message: vec![s("One"), s("commit")] };
    let only_me = vec![commit("a", &me, "A")];
    assert_eq!(build_message(args.subject("f", "m"), &only_me, "zzz", &me), "One commit\n\n* A");
}

#[test]
fn squash_reports_and_errors() {
    assert_eq!(render_plain(&display_squashed(3, "feat", "main")), "Squashed 3 commits from feat since main");
    assert_eq!(reflog_message("main"), "squash: collapse branch onto main");
    assert_eq!(no_base("feat").message(), "Branch feat does not have a base");
}

fn push_args(force: bool, upstream: Option<&str>) -> PushArgs {
    PushArgs { force, remote: None, upstream: upstream.map(s), branch: None }
}

#[test]
fn push_refuses_force_on_protected() {
    let protect = vec![s("main")];
    match push_args(true, None).check_protected("main", &protect) {
        Err(CliError::Generic(m)) => assert_eq!(m, "Cannot force push a protected branch"),
        _ => panic!(),
    }
    assert!(push_args(false, None).check_protected("main", &protect).is_ok());
    assert!(push_args(true, None).check_protected("feat", &protect).is_ok());
}

#[test]
fn push_names_remote_upstream_and_refspec() {
    let a = push_args(false, None);
    assert_eq!(a.remote_name(Some("up"), "origin"), "up");
    assert_eq!(a.remote_name(None, "origin"), "origin");
    assert_eq!(a.upstream_name(None, "origin", "feat"), "origin/feat");
    assert_eq!(push_args(false, Some("other")).upstream_name(None, "origin", "feat"), "origin/other");
    assert_eq!(a.upstream_name(Some("origin/x"), "origin", "feat"), "origin/x");
    assert_eq!(a.refspec("refs/heads/feat", "origin/feat/sub"), "refs/heads/feat:refs/heads/feat/sub");
    assert_eq!(push_args(true, None).refspec("refs/heads/f", "o/f"), "+refs/heads/f:refs/heads/f");
    assert_eq!(render_plain(&a.display_pushed("feat", "origin", Some("origin/feat"))), "Pushed feat to origin (tracking origin/feat)");
    assert_eq!(render_plain(&push_args(true, None).display_pushed("feat", "origin", None)), "Force-pushed feat to origin");
}

#[test]
fn push_checks() {
    assert!(matches!(after_upstream_check(PushCheckStatus::Ahead), Ok(CheckOutcome::Continue)));
    assert!(matches!(after_upstream_check(PushCheckStatus::NoBranch), Ok(CheckOutcome::Continue)));
    assert!(matches!(after_upstream_check(PushCheckStatus::UpToDate), Ok(CheckOutcome::Stop(m)) if m == "Already up to date, nothing to push"));
    assert!(matches!(after_upstream_check(PushCheckStatus::Behind), Ok(CheckOutcome::Stop(m)) if m == "Branch is behind remote, nothing new to push"));
    assert!(matches!(after_upstream_check(PushCheckStatus::Diverged), Err(CliError::Generic(m)) if m.starts_with("Branch has diverged from its upstream.")));
    assert!(matches!(after_base_check(PushCheckStatus::Diverged), Err(CliError::Generic(m)) if m.starts_with("Branch has diverged from its base.")));
    assert!(after_base_check(PushCheckStatus::Behind).is_ok());
}

#[test]
fn push_update_lines() {
    let u = PushUpdate { refname: s("refs/remotes/origin/feat"), kind: PushUpdateKind::Update(s("abc"), s("def")) };
    assert_eq!(render_plain(&display_push_update(&u)), "Updated origin/feat: abc -> def");
    let u = PushUpdate { refname: s("refs/heads/x"), kind: PushUpdateKind::Create(s("123")) };
    assert_eq!(render_plain(&display_push_update(&u)), "Created refs/heads/x: 123");
    let u = PushUpdate { refname: s("refs/remotes/o/y"), kind: PushUpdateKind::Delete(s("9")) };
    assert_eq!(render_plain(&display_push_update(&u)), "Deleted o/y (was 9)");
    let r = PushRejection { refname: s("refs/remotes/o/z"), status: s("stale info") };
    assert_eq!(render_plain(&display_push_rejection(&r)), "Failed to push o/z: stale info");
}

fn end_args(force: bool, remote: Option<bool>, no_fetch: Option<bool>) -> EndArgs {
    EndArgs { remote, force, no_fetch, base: None, branch: None }
}

fn base(remote: bool) -> BaseInfo {
    BaseInfo { name: s("origin/main"), refname: s("refs/remotes/origin/main"), remote }
}

#[test]
fn end_plan_for_checked_out_branch() {
    let facts = EndFacts { branch: Some(s("feat")), base: Some(base(true)), autofetch: true, end_remote: false, current: Some(s("feat")) };
    let p = end_args(false, None, None).plan(&facts).unwrap();
    assert_eq!(p.branch, "feat");
    assert_eq!(p.base, "origin/main");
    assert!(p.fetch && p.check_merged && !p.delete_remote);
    assert!(matches!(p.switch_to, Some(SwitchTo::TrackingOf(r)) if r == "refs/remotes/origin/main"));
    assert_eq!(p.config_key, "branch.feat");
    let p = end_args(true, Some(true), None).plan(&facts).unwrap();
    assert!(!p.fetch && !p.check_merged && p.delete_remote);
}

#[test]
fn end_plan_errors_and_local_base() {
    let none = EndFacts { branch: None, base: None, autofetch: false, end_remote: false, current: None };
    assert!(matches!(end_args(false, None, None).plan(&none), Err(CliError::Generic(m)) if m.starts_with("No branch to delete!")));
    let no_base = EndFacts { branch: Some(s("x")), base: None, autofetch: false, end_remote: false, current: None };
    assert!(matches!(end_args(false, None, None).plan(&no_base), Err(CliError::Generic(m)) if m.starts_with("Branch does not have a base!")));
    let local = EndFacts { branch: Some(s("x")), base: Some(BaseInfo { name: s("main"), refname: s("refs/heads/main"), remote: false }), autofetch: true, end_remote: true, current: Some(s("x")) };
    let p = end_args(false, None, Some(true)).plan(&local).unwrap();
    assert!(!p.fetch && p.delete_remote);
    assert!(matches!(p.switch_to, Some(SwitchTo::Base(n)) if n == "main"));
    let elsewhere = EndFacts { current: Some(s("main")), ..local };
    assert!(end_args(false, None, None).plan(&elsewhere).unwrap().switch_to.is_none());
    assert!(check_merged("x", "main", true).is_ok());
    assert_eq!(check_merged("x", "main", false).unwrap_err().message(), "x is not merged into main");
    assert_eq!(delete_refspec("feat"), ":feat");
}

#[test]
fn squash_commit_sits_on_the_merge_base_with_the_tip_tree() {
    let c = squash_commit("Squash f onto main".to_string(), "tree1", "base0", "refs/heads/f", "main", Some("refs/heads/f"));
    assert_eq!(c.tree, "tree1");
    assert_eq!(c.parents, vec!["base0".to_string()]);
    assert_eq!(c.message, "Squash f onto main");
    assert_eq!(c.refname, "refs/heads/f");
    assert_eq!(c.reflog, "squash: collapse branch onto main");
    assert!(c.checkout);
    let c = squash_commit("m".to_string(), "t", "b", "refs/heads/f", "main", Some("refs/heads/main"));
    assert!(!c.checkout);
    let args = SquashArgs { edit: true, base: None, branch: None, message: vec![] };
    assert!(matches!(args.first_step("msg".to_string(), "t", "b", "refs/heads/f", "main", None), SquashStep::Edit(ref m) if m == "msg"));
    let args = SquashArgs { edit: false, base: None, branch: None, message: vec![] };
    match args.first_step("msg".to_string(), "t", "b", "refs/heads/f", "main", None) {
        SquashStep::Commit(c) => {
            assert_eq!(c.parents, vec!["b".to_string()]);
            assert!(!c.checkout);
        },
        SquashStep::Edit(_) => panic!("no edit asked"),
    }
}

#[test]
fn end_checks_come_before_deletions() {
    let facts = EndFacts { branch: Some(s("feat")), base: Some(base(true)), autofetch: true, end_remote: true, current: Some(s("feat")) };
    let p = end_args(false, None, None).plan(&facts).unwrap();
    assert_eq!(
        p.steps(),
        vec![
            EndStep::Fetch,
            EndStep::CheckMerged,
            EndStep::Switch,
            EndStep::DeleteUpstream,
            EndStep::DeleteBranch,
            EndStep::DeleteWips,
            EndStep::RemoveConfig
        ]
    );
    let facts = EndFacts { branch: Some(s("feat")), base: Some(base(false)), autofetch: true, end_remote: false, current: None };
    let p = end_args(true, None, None).plan(&facts).unwrap();
    assert_eq!(p.steps(), vec![EndStep::DeleteBranch, EndStep::DeleteWips, EndStep::RemoveConfig]);
}

#[test]
fn push_checks_in_order_before_pushing() {
    let protect = vec![s("main")];
    let forced = push_args(true, None);
    assert!(matches!(forced.next_step("main", &protect, None, None), Err(CliError::Generic(m)) if m == "Cannot force push a protected branch"));
    let a = push_args(false, None);
    assert!(matches!(a.next_step("main", &protect, None, None), Ok(PushStep::CheckUpstream)));
    assert!(matches!(a.next_step("main", &protect, Some(PushCheckStatus::UpToDate), None), Ok(PushStep::Stop(m)) if m == "Already up to date, nothing to push"));
    assert!(matches!(a.next_step("main", &protect, Some(PushCheckStatus::Diverged), None), Err(CliError::Generic(m)) if m.starts_with("Branch has diverged from its upstream")));
    assert!(matches!(a.next_step("main", &protect, Some(PushCheckStatus::Ahead), None), Ok(PushStep::CheckBase)));
    assert!(matches!(a.next_step("main", &protect, Some(PushCheckStatus::Ahead), Some(PushCheckStatus::Diverged)), Err(CliError::Generic(m)) if m.starts_with("Branch has diverged from its base")));
    assert!(matches!(a.next_step("main", &protect, Some(PushCheckStatus::NoBranch), Some(PushCheckStatus::Behind)), Ok(PushStep::Push)));
}
