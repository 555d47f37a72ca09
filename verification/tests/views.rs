use feature::cli::config::create::{CreateArgs, CreateStep};
use feature::cli::config::get::{key_value_line, GetArgs};
use feature::cli::config::{ConfigArgs, ConfigCommand, ConfigTask, WhichConfig};
use feature::cli::diff::{count_changes, display_diff_summary, DiffEvent};
use feature::cli::display::commit::{display_commit_at, CommitInfo, CommitMessageLevel};
use feature::cli::display::diff::FileStatus;
use feature::cli::display::time::{display_time, display_time_absolute, relative_time_since, DisplayTimeOptions, GitTime};
use feature::cli::display::Person;
use feature::cli::project::{EachArgs, RemoveArgs};
use feature::cli::project_cmd::{add_to_gitignore, config_entries, RmArgs};
use feature::cli::show::{DisplayMode, RefKind, ResolveError, Resolved, RevisionFacts, ShowArgs};
use feature::cli::stash::{stash_refname, PopArgs as StashPop};
use feature::cli::status::{display_head_line, display_normal_header, HeadState, VersionInfo};
use feature::cli::wip::{display_wip_list, missing_entry, DropArgs, PopArgs, WipEntry};
use feature::text::{render_plain, Span, Style};

fn s(x: &str) -> String {
    x.to_string()
}

#[test]
fn relative_times() {
    let now = 1_000_000_000;
    assert_eq!(relative_time_since(now, now), "1 second ago");
    assert_eq!(relative_time_since(now, now - 45), "45 seconds ago");
    assert_eq!(relative_time_since(now, now - 90), "1 minute ago");
    assert_eq!(relative_time_since(now, now - 3 * 3600), "3 hours ago");
    assert_eq!(relative_time_since(now, now - 86400 - 5), "yesterday");
    assert_eq!(relative_time_since(now, now - 3 * 86400), "3 days ago");
    assert_eq!(relative_time_since(now, now - 20 * 86400), "2 weeks ago");
    assert_eq!(relative_time_since(now, now - 100 * 86400), "3 months ago");
    assert_eq!(relative_time_since(now, now - 400 * 86400), "1 year ago");
    assert_eq!(relative_time_since(now, now - 1000 * 86400), "2 years ago");
    assert_eq!(relative_time_since(i64::MAX, i64::MIN), "584942417355 years ago");
}

#[test]
fn absolute_times_use_the_commit_offset() {
    let t = GitTime { seconds: 1_700_000_000, offset_minutes: 60 };
    assert_eq!(display_time_absolute(&t, "%Y-%m-%d %H:%M").unwrap(), "2023-11-14 23:13");
    let utc = GitTime { seconds: 1_700_000_000, offset_minutes: 0 };
    assert_eq!(display_time(&utc, &DisplayTimeOptions::default()).unwrap(), "Nov 14, 2023 at 10:13 PM");
    let morning = GitTime { seconds: 1_700_000_000 - 13 * 3600, offset_minutes: 0 };
    assert_eq!(display_time(&morning, &DisplayTimeOptions::default()).unwrap(), "Nov 14, 2023 at 9:13 AM");
    let bad = GitTime { seconds: 0, offset_minutes: 24 * 60 };
    assert_eq!(display_time_absolute(&bad, "%H").unwrap_err().message(), "Failed to format time to local timezone");
    let relative = DisplayTimeOptions { relative: true, fmt: s("") };
    assert!(display_time(&utc, &relative).unwrap().ends_with(" ago"));
}

fn person(name: &str) -> Person {
    Person { name: s(name), email: format!("<{}@x>", name) }
}

#[test]
fn commit_display_levels() {
    let c = CommitInfo {
        short_id: s("abc1234"),
        time: GitTime { seconds: 0, offset_minutes: 0 },
        author: person("ann"),
        committer: person("bob"),
        summary: Some(s("Subject")),
        message: s("Subject\n\nBody line"),
    };
    let full = display_commit_at(&c, "then", CommitMessageLevel::Full).unwrap();
    assert_eq!(
        render_plain(&full),
        "abc1234 then by ann <ann@x>\n  Committed by bob <bob@x>\n\n  Subject\n  \n  Body line"
    );
    assert!(full.iter().any(|sp| sp.text == "bob" && sp.style.dim));
    let subj = display_commit_at(&c, "then", CommitMessageLevel::Subject).unwrap();
    assert_eq!(render_plain(&subj), "abc1234 then by ann <ann@x>\n  Committed by bob <bob@x>\n\n  Subject");
    let c2 = CommitInfo { summary: None, committer: person("ann"), ..c };
    assert_eq!(render_plain(&display_commit_at(&c2, "t", CommitMessageLevel::Hidden).unwrap()), "abc1234 t by ann <ann@x>");
    assert_eq!(display_commit_at(&c2, "t", CommitMessageLevel::Subject).unwrap_err().message(), "Failed to get commit subject");
}

#[test]
fn status_head_lines() {
    let h = HeadState::Branch {
        name: s("main"),
        upstream: Some((1, 2)),
        base: None,
        version: Some(VersionInfo { name: s("v1.0.0"), since: 3 }),
        wips: 2,
    };
    assert_eq!(render_plain(&display_head_line(&h, false)), "On branch main [up: +1 -2 | ver: v1.0.0 +3 | wips: 2]");
    let none = HeadState::NoCommits { target: s("refs/heads/dev") };
    assert_eq!(render_plain(&display_head_line(&none, false)), "On branch dev\nNo commits yet");
    let tag = HeadState::Tag { name: s("v2.0.0"), version_tag: true, prev: Some(VersionInfo { name: s("v1.9.0"), since: 4 }), version: None };
    assert_eq!(render_plain(&display_head_line(&tag, false)), "On tag v2.0.0 (+4 since v1.9.0)");
    let commit = HeadState::Commit { short_id: s("deadbee"), version: None };
    assert_eq!(render_plain(&display_head_line(&commit, false)), "On commit deadbee");
}

#[test]
fn status_normal_header_cuts_commit_line() {
    let h = HeadState::Branch { name: s("main"), upstream: None, base: None, version: None, wips: 0 };
    let commit_line = vec![Span { text: s("abc1234 a long commit subject"), style: Style::none() }];
    let p = person("ann");
    let text = display_normal_header(&h, commit_line, Some(&p), false, false, Some(12));
    assert_eq!(text, "On branch main\nabc1234 a l\u{2026}\nann <ann@x>");
    let commit_line = vec![Span { text: s("abc"), style: Style::none() }];
    assert_eq!(display_normal_header(&h, commit_line, None, false, false, None), "On branch main\nabc");
}

fn facts(reference: Option<(&str, RefKind)>, object: Option<bool>) -> RevisionFacts {
    RevisionFacts { reference: reference.map(|(n, k)| (s(n), k)), object }
}

fn show(display: DisplayMode) -> ShowArgs {
    ShowArgs { no_summary: None, no_patch: None, message: None, paging: None, display, tag: false, revision: None }
}

#[test]
fn show_resolves_display_modes() {
    let version_tag = RefKind::Tag { annotated: true, version: true, peels_to_commit: true };
    let plain_tag = RefKind::Tag { annotated: false, version: false, peels_to_commit: true };
    assert_eq!(show(DisplayMode::Auto).resolve_mode("main", &facts(Some(("refs/heads/main", RefKind::Branch)), Some(true))).unwrap(), Resolved::Branch);
    assert_eq!(show(DisplayMode::Auto).resolve_mode("v1", &facts(Some(("refs/tags/v1", version_tag)), Some(true))).unwrap(), Resolved::Version);
    assert_eq!(show(DisplayMode::Auto).resolve_mode("t", &facts(Some(("refs/tags/t", plain_tag)), Some(true))).unwrap(), Resolved::Commit);
    assert_eq!(show(DisplayMode::Auto).resolve_mode("HEAD~1", &facts(None, Some(true))).unwrap(), Resolved::Commit);
    match show(DisplayMode::Branch).resolve_mode("t", &facts(Some(("refs/tags/t", plain_tag)), Some(true))) {
        Err(e) => assert_eq!(e.message().unwrap(), "Not a local branch: refs/tags/t"),
        _ => panic!(),
    }
    match show(DisplayMode::Tag).resolve_mode("t", &facts(Some(("refs/tags/t", plain_tag)), Some(true))) {
        Err(e) => assert_eq!(e.message().unwrap(), "Failed to resolve to annotated tag: refs/tags/t"),
        _ => panic!(),
    }
    match show(DisplayMode::Commit).resolve_mode("abc", &facts(None, Some(false))) {
        Err(e) => assert_eq!(e.message().unwrap(), "Failed to resolve to commit: abc"),
        _ => panic!(),
    }
    assert!(matches!(show(DisplayMode::Auto).resolve_mode("nope", &facts(None, None)), Err(ResolveError::RevNotFound)));
    let no_commit = RefKind::Tag { annotated: true, version: true, peels_to_commit: false };
    match show(DisplayMode::Version).resolve_mode("v0", &facts(Some(("refs/tags/v0", no_commit)), Some(false))) {
        Err(e) => assert_eq!(e.message().unwrap(), "Failed to find commit pointed to by tag: refs/tags/v0"),
        _ => panic!(),
    }
    match show(DisplayMode::Tag).resolve_mode("main", &facts(Some(("refs/heads/main", RefKind::Branch)), Some(true))) {
        Err(e) => assert_eq!(e.message().unwrap(), "Not a tag: refs/heads/main"),
        _ => panic!(),
    }
    assert_eq!(show(DisplayMode::Tag).resolve_mode("a", &facts(Some(("refs/tags/a", version_tag)), Some(true))).unwrap(), Resolved::Tag);
    assert!(ResolveError::RefNotFound.message().is_none());
    assert!(matches!(show(DisplayMode::Version).resolve_mode("nope", &facts(None, None)), Err(ResolveError::RefNotFound)));
    let a = show(DisplayMode::Auto);
    assert_eq!(a.revision_to_show(Some("refs/heads/main")).unwrap(), "refs/heads/main");
    assert_eq!(a.revision_to_show(None).unwrap_err().message(), "No commits yet");
}

fn entry(index: usize, message: &str) -> WipEntry {
    WipEntry { branch: s("main"), index, time: s("2h"), message: s(message) }
}

#[test]
fn wips_and_stashes() {
    assert_eq!(render_plain(&display_wip_list(&vec![entry(0, "first"), entry(1, "second")])), "main:0 2h first\nmain:1 2h second");
    assert_eq!(missing_entry(4).message(), "Entry 4 does not exist");
    let d = DropArgs { spec: None };
    assert_eq!(render_plain(&d.run("main", 1, Some("second")).unwrap()), "Dropped main:1: second");
    assert_eq!(d.run("main", 7, None).unwrap_err().message(), "Entry 7 does not exist");
    let keep = PopArgs { keep: true, spec: None };
    let go = PopArgs { keep: false, spec: None };
    assert!(!keep.removes_entry(false));
    assert!(go.removes_entry(false));
    assert!(!go.removes_entry(true));
    let sp = StashPop { keep: false, index: None };
    assert!(!sp.removes_entry(true));
    assert_eq!(sp.entry(), 0);
    assert_eq!(stash_refname("main"), "refs/feature/stashes/main");
}

#[test]
fn config_steps() {
    let c = CreateArgs {};
    assert!(matches!(c.run(WhichConfig::Local, false, None), CreateStep::Save(WhichConfig::Local)));
    match c.run(WhichConfig::Global, true, None) {
        CreateStep::Confirm(q) => assert_eq!(q, "A global config file already exists. Do you want to overwrite it?"),
        _ => panic!(),
    }
    assert!(matches!(c.run(WhichConfig::Global, true, Some(false)), CreateStep::Keep));
    let args = ConfigArgs { which: WhichConfig::Local, global: true, command: ConfigCommand::Create(CreateArgs {}) };
    assert_eq!(args.which(), WhichConfig::Global);
    assert!(matches!(args.run(), ConfigTask::Create(WhichConfig::Global)));
    let args = ConfigArgs { which: WhichConfig::Local, global: false, command: ConfigCommand::Get(GetArgs { keys: vec![] }) };
    assert!(matches!(args.run(), ConfigTask::Get));
    assert_eq!(key_value_line("default_base", "main"), "default_base = main");
}

#[test]
fn projects() {
    let each = EachArgs { filter: vec![s("web"), s("api")], args: vec![s("git"), s("status"), s("-s")] };
    assert!(each.selects("webapp"));
    assert!(!each.selects("docs"));
    assert!(EachArgs { filter: vec![], args: vec![] }.selects("anything"));
    let (cmd, rest) = each.command().unwrap();
    assert_eq!(cmd, "git");
    assert_eq!(rest, vec![s("status"), s("-s")]);
    assert_eq!(EachArgs { filter: vec![], args: vec![] }.command().unwrap_err().message(), "Must specify a command!");
    let r = RemoveArgs { name: s("web") };
    assert_eq!(render_plain(&r.run(true).unwrap()), "Removed web");
    assert_eq!(r.run(false).unwrap_err().message(), "Failed to find project named \"web\"");
    assert_eq!(add_to_gitignore("", "web"), "web\n");
    assert_eq!(add_to_gitignore("target", "web"), "target\nweb\n");
    assert_eq!(add_to_gitignore("target\n", "web"), "target\nweb\n");
    let e = config_entries("web", "https://x/web.git", "web");
    assert_eq!(e[0].0, vec![s("projects"), s("web"), s("url")]);
    assert_eq!(e[1].1, "web");
    let config = "[projects.web]\nurl = \"https://x/web.git\"\npath = \"apps/web\"\n\n[projects.api]\nurl = \"u\"\npath = \"api\"\n";
    let ignore = "target\napps/web\napi\n";
    let plan = RmArgs { delete: true, name: s("web") }.run(config, ignore).unwrap().unwrap();
    assert!(!plan.config.contains("web"));
    assert!(plan.config.contains("[projects.api]"));
    assert_eq!(plan.gitignore, "target\napi\n");
    assert_eq!(plan.delete_dir, Some(s("apps/web")));
    let kept = RmArgs { delete: false, name: s("api") }.run(config, ignore).unwrap().unwrap();
    assert_eq!(kept.delete_dir, None);
    assert_eq!(kept.gitignore, "target\napps/web\n");
    assert!(RmArgs { delete: false, name: s("docs") }.run(config, ignore).unwrap().is_none());
    assert_eq!(RmArgs { delete: false, name: s("web") }.run("not = [toml", ignore).unwrap_err().code(), 3);
}

#[test]
fn diff_walk_counts() {
    let events = vec![
        DiffEvent::Line { addition: true, deletion: false },
        DiffEvent::File { status: FileStatus::Modified, old: s("a"), new: s("a") },
        DiffEvent::Line { addition: true, deletion: false },
        DiffEvent::Line { addition: false, deletion: true },
        DiffEvent::Line { addition: false, deletion: false },
        DiffEvent::File { status: FileStatus::Renamed, old: s("b"), new: s("c") },
        DiffEvent::Line { addition: false, deletion: true },
    ];
    let changes = count_changes(&events);
    assert_eq!(changes.len(), 2);
    assert_eq!((changes[0].insertions, changes[0].deletions), (1, 1));
    assert_eq!((changes[1].insertions, changes[1].deletions), (0, 1));
    assert_eq!(
        render_plain(&display_diff_summary(2, 1, 2, &changes)),
        "2 files changed [+1 -2]\n  M a +1 -1\n  R b -> c +0 -1\n"
    );
}
