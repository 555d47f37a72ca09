use feature::cli::branch_list::{build_row, display_table};
use feature::cli::display::diff::DiffSummary;
use feature::cli::display::diff::{display_file_summary, DiffFileSummary, FileStatus};
use feature::cli::show::Highlight;
use feature::cli::status::status_guide;
use feature::cli::sync::{fast_forward, FastForwardMove};
use feature::text::Color;
use feature::cli::complete::{print_matches, special_rev_names, Args as CompleteArgs, CompletionType};
use feature::cli::config_cmd::{keeps, ArrayArgs, ArrayEdit, ArrayState, WhichConfig};
use feature::cli::error::CliError;
use feature::cli::errors::CliError as ProcessError;
use feature::cli::prune::{delete_pruned, prune_branch, PruneDecision, PruneFact};
use feature::cli::sync::{update_branch, BranchUpdate, SyncFact, UpdateAction};
use feature::cli::tag::TagArgs;
use feature::cli::tags::{sort_descending, Semver};

fn s(x: &str) -> String {
    x.to_string()
}

// ---- sync: a branch only moves by fast-forwarding, never with local changes

#[test]
fn sync_skips_checked_out_branch_with_local_changes() {
    let r = update_branch("main", Some("main"), true, Some(true), Some(false), Some(true));
    match r {
        Ok(BranchUpdate::Report(UpdateAction::UpdateSkip { name, reason })) => {
            assert_eq!(name, "main");
            assert_eq!(reason, "local changes");
        },
        _ => panic!("expected a skip"),
    }
}

#[test]
fn sync_asks_for_facts_in_order() {
    assert_eq!(update_branch("main", Some("main"), true, None, None, None).unwrap_err(), SyncFact::WorkdirChanges);
    assert_eq!(update_branch("dev", Some("main"), true, None, None, None).unwrap_err(), SyncFact::TipsEqual);
    assert_eq!(update_branch("dev", None, true, None, Some(false), None).unwrap_err(), SyncFact::Descendant);
}

#[test]
fn sync_fast_forwards_only_when_possible() {
    match update_branch("dev", Some("main"), true, None, Some(false), Some(true)) {
        Ok(BranchUpdate::FastForward { reset_head }) => assert!(!reset_head),
        _ => panic!("expected a fast-forward"),
    }
    match update_branch("main", Some("main"), true, Some(false), Some(false), Some(true)) {
        Ok(BranchUpdate::FastForward { reset_head }) => assert!(reset_head),
        _ => panic!("expected a fast-forward"),
    }
    match update_branch("dev", None, true, None, Some(false), Some(false)) {
        Ok(BranchUpdate::Report(UpdateAction::UpdateSkip { reason, .. })) => assert_eq!(reason, "not fast-forwardable"),
        _ => panic!("expected a skip"),
    }
    assert!(matches!(
        update_branch("dev", None, true, None, Some(true), None),
        Ok(BranchUpdate::Report(UpdateAction::Unchanged))
    ));
    assert!(matches!(
        update_branch("dev", None, false, None, None, None),
        Ok(BranchUpdate::Report(UpdateAction::Unchanged))
    ));
}

// ---- prune: only pushed, merged, non-protected, non-current feature branches go

#[test]
fn prune_never_deletes_protected_or_current() {
    let protect = vec![s("main")];
    let none: Vec<String> = vec![];
    assert!(matches!(
        prune_branch("main", &protect, &none, Some(true), Some(Some(s("x"))), None, Some(true)),
        Ok(PruneDecision::Report(UpdateAction::Unchanged))
    ));
    match prune_branch("feat", &protect, &none, Some(true), Some(Some(s("main"))), Some("feat"), Some(true)) {
        Ok(PruneDecision::Report(UpdateAction::DeleteSkip { name, reason })) => {
            assert_eq!(name, "feat");
            assert_eq!(reason, "currently checked-out");
        },
        _ => panic!("expected a skip"),
    }
}

#[test]
fn prune_deletes_merged_feature_branch() {
    let protect = vec![s("main")];
    let none: Vec<String> = vec![];
    assert!(matches!(
        prune_branch("feat", &protect, &none, Some(true), Some(Some(s("main"))), Some("main"), Some(true)),
        Ok(PruneDecision::Delete)
    ));
    assert!(matches!(
        prune_branch("feat", &protect, &none, Some(true), Some(Some(s("main"))), Some("main"), Some(false)),
        Ok(PruneDecision::Report(UpdateAction::Unchanged))
    ));
    assert!(matches!(
        prune_branch("feat", &protect, &none, Some(false), None, None, None),
        Ok(PruneDecision::Report(UpdateAction::Unchanged))
    ));
    assert!(matches!(
        prune_branch("feat", &protect, &none, Some(true), Some(None), None, None),
        Ok(PruneDecision::Report(UpdateAction::Unchanged))
    ));
    assert_eq!(prune_branch("feat", &protect, &none, None, None, None, None).unwrap_err(), PruneFact::Pushed);
    assert_eq!(prune_branch("feat", &protect, &none, Some(true), None, None, None).unwrap_err(), PruneFact::Base);
    assert_eq!(
        prune_branch("feat", &protect, &none, Some(true), Some(Some(s("main"))), None, None).unwrap_err(),
        PruneFact::Merged
    );
}

// ---- config arrays: remove undoes append

fn apply(edit: &ArrayEdit, arr: &mut Vec<Option<String>>, values: &Vec<String>) {
    match edit {
        ArrayEdit::Nothing => {},
        ArrayEdit::Push { values: v, .. } => {
            for x in v {
                arr.push(Some(x.clone()));
            }
        },
        ArrayEdit::Retain => arr.retain(|e| keeps(e.as_deref(), values)),
    }
}

#[test]
fn config_remove_undoes_append() {
    let args = ArrayArgs { which: WhichConfig::Project, global: false, key: s("protect"), values: vec![s("a"), s("b")] };
    let mut arr = vec![Some(s("x")), Some(s("a")), None, Some(s("y"))];
    let state = ArrayState::Array(arr.clone());
    let appended = args.append(&state).unwrap();
    apply(&appended, &mut arr, &args.values);
    assert_eq!(arr.len(), 6);
    let removed = args.remove(&ArrayState::Array(arr.clone())).unwrap();
    apply(&removed, &mut arr, &args.values);
    assert_eq!(arr, vec![Some(s("x")), None, Some(s("y"))]);
}

#[test]
fn config_array_edits_on_missing_and_wrong_keys() {
    let args = ArrayArgs { which: WhichConfig::User, global: true, key: s("k"), values: vec![s("v")] };
    assert!(matches!(args.append(&ArrayState::Missing), Ok(ArrayEdit::Push { create: true, .. })));
    assert!(matches!(args.remove(&ArrayState::Missing), Ok(ArrayEdit::Nothing)));
    match args.append(&ArrayState::NotArray) {
        Err(CliError::Generic(m)) => assert_eq!(m, "Not an array: k"),
        _ => panic!("expected an error"),
    }
    let none = ArrayArgs { which: WhichConfig::User, global: false, key: s("k"), values: vec![] };
    assert!(matches!(none.append(&ArrayState::NotArray), Ok(ArrayEdit::Nothing)));
}

// ---- tags: the tag name of a version parses back to it

fn tag_args(version: &str) -> TagArgs {
    TagArgs { at: None, remote: None, push: false, message: None, version: s(version) }
}

#[test]
fn tag_name_round_trips() {
    let name = tag_args("1.20.3").tag_name().unwrap();
    assert_eq!(name, "v1.20.3");
    assert_eq!(tag_args(&name).tag_name().unwrap(), name);
    assert_eq!(tag_args("v0.0.0").tag_name().unwrap(), "v0.0.0");
    assert_eq!(
        tag_args("18446744073709551615.0.1").tag_name().unwrap(),
        "v18446744073709551615.0.1"
    );
}

#[test]
fn tag_name_rejects_non_versions() {
    for bad in ["1.2", "1.2.3.4", "a.b.c", "1..3", "v", "", "18446744073709551616.0.0"] {
        match tag_args(bad).tag_name() {
            Err(CliError::Generic(m)) => {
                let rest = bad.strip_prefix('v').unwrap_or(bad);
                assert_eq!(m, format!("Invalid version: {}", rest));
            },
            _ => panic!("expected an error for {:?}", bad),
        }
    }
}

#[test]
fn versions_sort_descending() {
    let v = |a, b, c| Semver { major: a, minor: b, patch: c };
    let sorted = sort_descending(vec![v(1, 0, 0), v(2, 1, 0), v(1, 10, 2), v(2, 1, 0), v(0, 9, 9)]);
    assert_eq!(sorted, vec![v(2, 1, 0), v(2, 1, 0), v(1, 10, 2), v(1, 0, 0), v(0, 9, 9)]);
}

// ---- exit codes: nonzero, one per kind

#[test]
fn exit_codes_are_nonzero_and_distinct() {
    let errs = vec![
        CliError::Generic(s("a")),
        CliError::Process(s("b")),
        CliError::Config(s("c")),
        CliError::Database(s("d")),
        CliError::Git(s("e")),
        CliError::Precommit(s("f")),
        CliError::Push(s("g")),
    ];
    let codes: Vec<u8> = errs.iter().map(|e| e.code()).collect();
    assert_eq!(codes, vec![1, 2, 3, 4, 5, 6, 7]);
    assert_eq!(errs[6].message(), "g");
    let p = vec![ProcessError::Generic(s("x")), ProcessError::SubprocessFailed(s("y")), ProcessError::ConfigError(s("z"))];
    let codes: Vec<u8> = p.iter().map(|e| e.code()).collect();
    assert_eq!(codes, vec![1, 2, 3]);
}

#[test]
fn io_and_utf8_errors_keep_their_text() {
    let e = std::io::Error::new(std::io::ErrorKind::Other, "disk on fire");
    let c = ProcessError::from_io(&e);
    assert_eq!(c.code(), 1);
    assert_eq!(c.message(), "disk on fire");
    let bad = String::from_utf8(vec![0x66, 0xff]).unwrap_err();
    let c = ProcessError::from_utf8(&bad);
    assert_eq!(c.code(), 2);
    assert_eq!(c.message(), bad.to_string());
    assert_eq!(ProcessError::from_config(s("bad key")).code(), 3);
}

// ---- completions: exactly the candidates with the typed prefix

#[test]
fn completions_keep_prefixed_candidates_in_order() {
    let a = CompleteArgs { comp_type: CompletionType::Branch, value: s("fe") };
    let c = vec![s("feat/a"), s("main"), s("fe"), s("f"), s("feat/b")];
    assert_eq!(a.find_matching(&c), vec![s("feat/a"), s("fe"), s("feat/b")]);
    let empty = CompleteArgs { comp_type: CompletionType::Remote, value: s("") };
    assert_eq!(empty.find_matching(&c), c);
}

#[test]
fn completions_of_revisions() {
    let a = CompleteArgs { comp_type: CompletionType::Rev, value: s("H") };
    let r = a.find_matching_revs(
        &vec![s("Hotfix")],
        &vec![s("origin/Hx")],
        &vec![s("H1")],
        &vec![true, true, false, false, false, false],
    );
    assert_eq!(r, vec![s("Hotfix"), s("H1"), s("HEAD")]);
    assert_eq!(special_rev_names().len(), 6);
    assert_eq!(print_matches(&r), "Hotfix H1 HEAD");
    assert_eq!(print_matches(&vec![]), "");
}

#[test]
fn fast_forward_moves_unless_dry_run() {
    let empty = || DiffSummary { num_files: 0, insertions: 0, deletions: 0, files: vec![] };
    let (mv, report) = fast_forward("dev", false, "refs/remotes/origin/dev", s("abc1234"), empty(), false);
    assert!(matches!(mv, Some(FastForwardMove::SetTarget(m)) if m == "feature sync: fast-forward to refs/remotes/origin/dev"));
    assert!(matches!(report, UpdateAction::Update { ref name, ref old, .. } if name == "dev" && old == "abc1234"));
    let (mv, _) = fast_forward("main", true, "refs/remotes/origin/main", s("1"), empty(), false);
    assert!(matches!(mv, Some(FastForwardMove::HardReset)));
    let (mv, report) = fast_forward("main", true, "refs/remotes/origin/main", s("1"), empty(), true);
    assert!(mv.is_none());
    assert_eq!(feature::text::render_plain(&report.display()), "Updated main (was 1) | 0 files changed [+0 -0]");
}

#[test]
fn branch_list_icons_follow_the_legend() {
    let rows = vec![build_row("main", Highlight::Plain, false, "1h", "x", Some((1, 0)), Some((0, 2)))];
    let spans = display_table(rows, false);
    let up = spans.iter().find(|sp| sp.text == "U").unwrap();
    let base = spans.iter().find(|sp| sp.text == "B").unwrap();
    assert_eq!(up.style.color, Color::Magenta);
    assert_eq!(base.style.color, Color::Blue);
}

#[test]
fn prune_keeps_branches_whose_facts_rule_it_out() {
    let protect: Vec<String> = vec![];
    let none: Vec<String> = vec![];
    assert!(matches!(
        prune_branch("f", &protect, &none, Some(false), None, None, None),
        Ok(PruneDecision::Report(UpdateAction::Unchanged))
    ));
    assert!(matches!(
        prune_branch("f", &protect, &none, Some(true), Some(None), None, None),
        Ok(PruneDecision::Report(UpdateAction::Unchanged))
    ));
    assert!(matches!(
        prune_branch("f", &protect, &none, Some(true), Some(Some(s("main"))), Some("main"), Some(false)),
        Ok(PruneDecision::Report(UpdateAction::Unchanged))
    ));
}

#[test]
fn status_guide_lists_the_file_letters() {
    let guide = feature::text::render_plain(&status_guide());
    for (status, letter, meaning) in [
        (FileStatus::Added, "A", "Added"),
        (FileStatus::Deleted, "D", "Deleted"),
        (FileStatus::Modified, "M", "Modified"),
        (FileStatus::Renamed, "R", "Renamed"),
        (FileStatus::Unreadable, "?", "Unreadable"),
    ] {
        let f = DiffFileSummary { status, name: s("f"), similar_old: s("g"), insertions: 0, deletions: 0 };
        let line = feature::text::render_plain(&display_file_summary(&f, false));
        assert!(line.starts_with(&format!("{} ", letter)));
        assert!(guide.contains(&format!("  {} {}\n", letter, meaning)));
    }
}

#[test]
fn prune_keeps_a_branch_marked_by_protect() {
    let none: Vec<String> = vec![];
    let marked = vec![s("feat")];
    assert!(matches!(
        prune_branch("feat", &none, &marked, Some(true), Some(Some(s("main"))), None, Some(true)),
        Ok(PruneDecision::Report(UpdateAction::Unchanged))
    ));
    assert!(matches!(
        prune_branch("other", &none, &marked, Some(true), Some(Some(s("main"))), None, Some(true)),
        Ok(PruneDecision::Delete)
    ));
}

#[test]
fn prune_dry_run_deletes_nothing() {
    let (deletion, report) = delete_pruned("feat", s("abc1234"), true);
    assert!(deletion.is_none());
    assert!(matches!(report, UpdateAction::Delete { ref name, ref old } if name == "feat" && old == "abc1234"));
    let (deletion, _) = delete_pruned("feat", s("abc1234"), false);
    let d = deletion.unwrap();
    assert_eq!(d.branch, "feat");
    assert_eq!(d.config_section, "branch.feat");
}
