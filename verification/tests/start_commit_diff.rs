use feature::cli::commit::{
    build_msg_template, checked_message, CommitTarget, CommitWrite, editor_command, editor_failed, final_message, get_editor, post_rewrite_input,
    prepare_msg_hook_args, read_commit_msg, CommitArgs, CommitType, Confirmation, Lookup, MsgFacts, MsgSource,
    MsgSourceType,
};
use feature::cli::display::diff::{display_file_summary, display_summary, display_summary_with_header, DiffFileSummary, DiffSummary, FileStatus};
use feature::cli::error::CliError;
use feature::cli::start::{expand_template, feature_base_name, Args as StartArgs, TemplateVars};
use feature::text::{render, render_plain, Color, Span, Style};

fn s(x: &str) -> String {
    x.to_string()
}

fn vars(user: Option<&str>) -> TemplateVars {
    TemplateVars { main: s("fix-bug"), user: user.map(s), base: s("main"), sep: s("-") }
}

#[test]
fn template_variables_expand() {
    assert_eq!(expand_template("%s", &vars(None)).unwrap(), "fix-bug");
    assert_eq!(expand_template("%(user)/%s", &vars(Some("ann"))).unwrap(), "ann/fix-bug");
    assert_eq!(expand_template("%(base)%(sep)%s", &vars(None)).unwrap(), "main-fix-bug");
    assert_eq!(expand_template("100%%", &vars(None)).unwrap(), "100%");
    assert_eq!(expand_template("%(other)x", &vars(None)).unwrap(), "%(other)x");
    assert_eq!(expand_template("%(open", &vars(None)).unwrap(), "%(open");
    assert_eq!(expand_template("plain", &vars(None)).unwrap(), "plain");
}

#[test]
fn template_without_user_is_an_error() {
    match expand_template("%(user)/%s", &vars(None)) {
        Err(CliError::Generic(m)) => {
            assert_eq!(m, "No value for feature.user. Set it with \"git config feature.user <username>\".")
        },
        _ => panic!("expected an error"),
    }
}

fn start(sep: Option<&str>, format: Option<&str>, words: &[&str]) -> StartArgs {
    StartArgs {
        dry_run: false,
        sep: sep.map(s),
        format: format.map(s),
        from: None,
        stay: false,
        words: words.iter().map(|w| s(w)).collect(),
    }
}

#[test]
fn branch_names_from_words() {
    assert_eq!(start(None, None, &["a", "b"]).build_branch_name("_", None, "main", None).unwrap(), "a_b");
    assert_eq!(start(Some("."), None, &["a", "b"]).build_branch_name("_", None, "main", None).unwrap(), "a.b");
    assert_eq!(
        start(None, None, &["a", "b"]).build_branch_name("-", Some("%(user)/%s"), "main", Some(s("me"))).unwrap(),
        "me/a-b"
    );
    assert_eq!(
        start(None, Some("%(base)/%s"), &["x"]).build_branch_name("-", Some("%(user)/%s"), "dev", None).unwrap(),
        "dev/x"
    );
    assert_eq!(start(None, Some(""), &["x", "y"]).build_branch_name("-", None, "dev", None).unwrap(), "x-y");
    assert_eq!(feature_base_name("refs/heads/main", Some("refs/remotes/origin/main")), "refs/remotes/origin/main");
    assert_eq!(feature_base_name("refs/heads/main", None), "refs/heads/main");
}

fn commit_args(amend: bool, words: &[&str]) -> CommitArgs {
    CommitArgs {
        to: None,
        edit: false,
        amend,
        reset_author: false,
        bypass_hooks: false,
        words: words.iter().map(|w| s(w)).collect(),
    }
}

#[test]
fn commit_type_decisions() {
    assert!(matches!(commit_args(true, &[]).commit_type(Some("abc"), false, false), Ok(CommitType::Amend(id)) if id == "abc"));
    match commit_args(true, &[]).commit_type(None, false, false) {
        Err(CliError::Generic(m)) => assert_eq!(m, "No current commit to amend"),
        _ => panic!(),
    }
    assert!(matches!(commit_args(false, &[]).commit_type(None, true, false), Ok(CommitType::Merge)));
    assert!(matches!(commit_args(false, &[]).commit_type(None, false, true), Ok(CommitType::Normal)));
    match commit_args(false, &[]).commit_type(None, false, false) {
        Err(CliError::Generic(m)) => assert_eq!(m, "Nothing to commit! Stage some changes with \"git add/rm \u{2026}\""),
        _ => panic!(),
    }
}

#[test]
fn commit_confirmation_during_operations() {
    assert!(matches!(CommitArgs::confirm(true, false, true, None, None), Confirmation::Ask(_)));
    assert!(matches!(CommitArgs::confirm(true, false, true, Some(false), None), Confirmation::Cancel));
    assert!(matches!(CommitArgs::confirm(true, true, true, Some(true), None), Confirmation::Ask(q) if q.contains("revert")));
    assert!(matches!(CommitArgs::confirm(true, true, false, None, None), Confirmation::Proceed));
    assert!(matches!(CommitArgs::confirm(false, false, true, None, None), Confirmation::Proceed));
}

#[test]
fn commit_message_sources_and_hook_args() {
    let facts = MsgFacts { squash_msg: false, rebase_merge: None, rebase_apply: Some(s("r1")) };
    let src = commit_args(false, &["fix", "it"]).msg_source(&CommitType::Normal, &facts);
    assert_eq!(src.file_name, "COMMIT_EDITMSG");
    assert_eq!(prepare_msg_hook_args("/g/COMMIT_EDITMSG", &src), vec!["/g/COMMIT_EDITMSG", "message"]);
    let src = commit_args(false, &[]).msg_source(&CommitType::Normal, &facts);
    assert_eq!(src.file_name, "rebase-apply/message");
    assert_eq!(prepare_msg_hook_args("m", &src), vec!["m", "commit", "r1"]);
    let src = commit_args(false, &[]).msg_source(&CommitType::Merge, &facts);
    assert_eq!(src.file_name, "MERGE_MSG");
    let none = MsgFacts { squash_msg: false, rebase_merge: None, rebase_apply: None };
    let src = commit_args(false, &[]).msg_source(&CommitType::Normal, &none);
    assert!(matches!(src.ty, MsgSourceType::Unset));
    assert_eq!(prepare_msg_hook_args("m", &src), vec!["m"]);
    let src = MsgSource { file_name: s("SQUASH_MSG"), ty: MsgSourceType::Squash };
    assert_eq!(prepare_msg_hook_args("m", &src), vec!["m", "squash"]);
    assert_eq!(commit_args(false, &["fix", "it"]).cli_message(), "fix it");
}

#[test]
fn commit_message_read_back() {
    assert_eq!(read_commit_msg("Subject\n# comment\n\nBody\n#x"), "Subject\n\nBody");
    assert_eq!(final_message("  hello \n").unwrap(), "hello");
    match final_message(" \n\t") {
        Err(CliError::Generic(m)) => assert_eq!(m, "Must specify a commit message!"),
        _ => panic!(),
    }
}

#[test]
fn editor_lookup_follows_git_order() {
    let e = get_editor(&Lookup::Unset, &Lookup::Found(s("nano")), &Lookup::Found(s("code")), &Lookup::Unset, false);
    assert_eq!(e.unwrap(), "nano");
    assert_eq!(get_editor(&Lookup::Unset, &Lookup::Unset, &Lookup::Unset, &Lookup::Unset, false).unwrap(), "vi");
    assert_eq!(get_editor(&Lookup::Unset, &Lookup::Unset, &Lookup::Unset, &Lookup::Unset, true).unwrap(), "notepad");
    match get_editor(&Lookup::Invalid(s("bad value")), &Lookup::Found(s("x")), &Lookup::Unset, &Lookup::Unset, false) {
        Err(CliError::Generic(m)) => assert_eq!(m, "bad value"),
        _ => panic!(),
    }
    assert_eq!(editor_command("vim", "/tmp/MSG"), "vim \"/tmp/MSG\"");
    assert_eq!(editor_failed(Some(2)).message(), "Editor failed with code: 2");
    assert_eq!(editor_failed(None).message(), "Editor failed");
    assert_eq!(post_rewrite_input("aaa", "bbb"), "aaa bbb");
}

fn file(status: FileStatus, name: &str, old: &str, ins: usize, del: usize) -> DiffFileSummary {
    DiffFileSummary { status, name: s(name), similar_old: s(old), insertions: ins, deletions: del }
}

#[test]
fn diff_summary_lines() {
    let summary = DiffSummary {
        num_files: 2,
        insertions: 5,
        deletions: 1,
        files: vec![file(FileStatus::Modified, "a.rs", "", 4, 1), file(FileStatus::Renamed, "b.rs", "c.rs", 1, 0)],
    };
    assert_eq!(
        render_plain(&display_summary(&summary, false)),
        "2 files changed [+5 -1]\n  M a.rs +4 -1\n  R c.rs -> b.rs +1 -0"
    );
    let one = DiffSummary { num_files: 1, insertions: 0, deletions: 0, files: vec![file(FileStatus::Untracked, "n", "", 3, 0)] };
    assert_eq!(render_plain(&display_summary(&one, false)), "1 file changed [+0 -0]\n  U n");
    let header = vec![Span { text: s("Changes:"), style: Style::none() }];
    assert_eq!(render_plain(&display_summary_with_header(&one, header, false)), "Changes:\n  U n");
    assert_eq!(render_plain(&display_file_summary(&file(FileStatus::Added, "x", "", 1, 0), true)), "\u{f4d0} x +1 -0");
}

#[test]
fn colored_rendering_paints_each_span() {
    let spans = display_file_summary(&file(FileStatus::Deleted, "gone", "", 0, 7), false);
    let plain = render(&spans, false);
    let colored = render(&spans, true);
    assert_eq!(plain, "D gone +0 -7");
    assert_ne!(colored, plain);
    assert!(colored.contains("\u{1b}["));
    assert!(colored.contains("gone"));
}

#[test]
fn message_template_comments_the_summary() {
    let summary = DiffSummary { num_files: 1, insertions: 2, deletions: 0, files: vec![file(FileStatus::Added, "new.txt", "", 2, 0)] };
    assert_eq!(
        build_msg_template("msg", Some("main"), &summary),
        "msg\n# Committing on main\n# 1 file changed [+2 -0]\n#   A new.txt +2 -0"
    );
    let empty = DiffSummary { num_files: 0, insertions: 0, deletions: 0, files: vec![] };
    assert_eq!(build_msg_template("", None, &empty), "\n# Initial commit\n# 0 files changed [+0 -0]");
}

#[test]
fn empty_messages_are_refused() {
    assert_eq!(checked_message(s("x")).unwrap(), "x");
    assert_eq!(checked_message(s("")).unwrap_err().message(), "Must specify a commit message!");
}

#[test]
fn message_template_reads_back_as_initial() {
    let summary = DiffSummary { num_files: 1, insertions: 2, deletions: 0, files: vec![file(FileStatus::Added, "new.txt", "", 2, 0)] };
    let template = build_msg_template("Fix bug\n\nDetails", Some("main"), &summary);
    assert_eq!(read_commit_msg(&template), "Fix bug\n\nDetails");
    let template = build_msg_template("", None, &summary);
    assert_eq!(read_commit_msg(&template), "");
    assert!(final_message(&read_commit_msg(&template)).is_err());
}

#[test]
fn template_reads_back_exactly_and_trims_unicode_whitespace() {
    let summary = DiffSummary { num_files: 1, insertions: 2, deletions: 0, files: vec![file(FileStatus::Added, "n.rs", "", 2, 0)] };
    for initial in ["Fix bug\n\nDetails\n", "", "one line", "\u{3000}spaced\u{a0}\n"] {
        let template = build_msg_template(initial, Some("main"), &summary);
        assert_eq!(read_commit_msg(&template), initial);
    }
    assert_eq!(final_message("\u{3000}\u{2003}msg\u{a0}\u{85}").unwrap(), "msg");
    assert_eq!(final_message("\u{200b}msg").unwrap(), "\u{200b}msg");
}

#[test]
fn colored_rendering_writes_the_style_escapes() {
    let spans = vec![
        Span { text: "a".to_string(), style: Style { color: Color::Red, bold: true, dim: false } },
        Span { text: "b".to_string(), style: Style::none() },
        Span { text: "c".to_string(), style: Style { color: Color::Default, bold: false, dim: true } },
        Span { text: "d".to_string(), style: Style { color: Color::Cyan, bold: true, dim: true } },
    ];
    assert_eq!(
        render(&spans, true),
        "\u{1b}[31m\u{1b}[1ma\u{1b}[0mb\u{1b}[2mc\u{1b}[0m\u{1b}[36m\u{1b}[1m\u{1b}[2md\u{1b}[0m"
    );
}

#[test]
fn commit_write_places_new_and_amended_commits() {
    let target = CommitTarget { id: "c1".to_string(), refname: Some("HEAD".to_string()) };
    match commit_args(false, &["msg"]).write(Some(&target), Some("m2"), "msg".to_string(), "t1").unwrap() {
        CommitWrite::New { update_ref, parents, message, tree } => {
            assert_eq!(update_ref.as_deref(), Some("HEAD"));
            assert_eq!(parents, vec!["c1".to_string(), "m2".to_string()]);
            assert_eq!(message, "msg");
            assert_eq!(tree, "t1");
        },
        CommitWrite::Amend { .. } => panic!("not an amend"),
    }
    match commit_args(false, &["msg"]).write(None, None, "msg".to_string(), "t1").unwrap() {
        CommitWrite::New { update_ref, parents, .. } => {
            assert_eq!(update_ref.as_deref(), Some("HEAD"));
            assert!(parents.is_empty());
        },
        CommitWrite::Amend { .. } => panic!("not an amend"),
    }
    match commit_args(true, &[]).write(Some(&target), Some("m2"), "new".to_string(), "t2").unwrap() {
        CommitWrite::Amend { commit, reset_author, message, .. } => {
            assert_eq!(commit, "c1");
            assert!(!reset_author);
            assert_eq!(message, "new");
        },
        CommitWrite::New { .. } => panic!("an amend"),
    }
    assert!(matches!(commit_args(true, &[]).write(None, None, "x".to_string(), "t"), Err(CliError::Generic(m)) if m == "No current commit to amend"));
}

#[test]
fn template_reads_back_with_carriage_returns() {
    let summary = DiffSummary { num_files: 0, insertions: 0, deletions: 0, files: vec![] };
    let template = build_msg_template("a\rb", None, &summary);
    assert_eq!(read_commit_msg(&template), "a\rb");
    let template = build_msg_template("Fix\r\n", Some("main"), &summary);
    assert_eq!(read_commit_msg(&template), "Fix\n");
    assert_eq!(final_message(&read_commit_msg(&template)).unwrap(), "Fix");
}
