use feature::cli::branch_list::{
    build_row as compact_row, calculate_column_width, display_table as compact_table, display_table_checked,
    sort_order, BranchListArgs, SortBy, SortKey,
};
use feature::cli::display::time::GitTime;
use feature::cli::error::CliError;
use feature::cli::list::{build_row, build_table, display_row, BranchFacts, Columns, Row, Widths};
use feature::cli::show::Highlight;
use feature::cli::tags::{
    build_row as tag_row, calculate_column_width as tag_column_width, display_table as tag_table, TagRowFacts,
};
use feature::text::render_plain;

fn s(x: &str) -> String {
    x.to_string()
}

fn key(name: &str, seconds: i64) -> SortKey {
    SortKey { name: s(name), time: GitTime { seconds, offset_minutes: 0 } }
}

#[test]
fn branch_sort_by_name_and_date_is_stable() {
    let keys = vec![key("b", 10), key("a", 30), key("c", 10), key("a", 20)];
    assert_eq!(sort_order(&keys, SortBy::Name), vec![1, 3, 0, 2]);
    assert_eq!(sort_order(&keys, SortBy::Date), vec![1, 3, 0, 2]);
    let keys = vec![key("x", 5), key("y", 5), key("z", 7)];
    assert_eq!(sort_order(&keys, SortBy::Date), vec![2, 0, 1]);
    assert_eq!(sort_order(&vec![], SortBy::Name), Vec::<usize>::new());
}

#[test]
fn branch_list_options() {
    let a = BranchListArgs { sort: None, no_projects: None, no_modules: Some(false), pattern: Some(s("feat/*")) };
    assert_eq!(a.sort_by(SortBy::Date), SortBy::Date);
    assert!(a.hide_projects(false));
    assert!(!a.hide_projects(true));
    assert!(!a.hide_modules(false));
    assert_eq!(a.glob(), Some(s("refs/heads/feat/*")));
}

#[test]
fn compact_table_aligns_counts() {
    let rows = vec![
        compact_row("main", Highlight::Current, false, "2h", "fix", Some((1, 0)), None),
        compact_row("feature/long", Highlight::Plain, true, "3d", "add", None, Some((2, 3))),
    ];
    assert_eq!(calculate_column_width(&rows), Some(22));
    let text = render_plain(&compact_table(rows, false));
    assert_eq!(
        text,
        "main           U +1 -0 2h \u{b7} fix\nfeature/long \u{25cf} B +2 -3 3d \u{b7} add"
    );
}

#[test]
fn compact_table_cuts_long_names() {
    let rows = vec![compact_row("a-very-long-branch-name-indeed", Highlight::Plain, false, "1m", "x", None, None)];
    let text = render_plain(&display_table_checked(rows, false).unwrap());
    assert_eq!(text, "a-very-long-branch-\u{2026} 1m \u{b7} x");
}

#[test]
fn list_rows_and_widths() {
    let h = Row::header();
    assert_eq!(h.branch, "Branch");
    assert_eq!(h.widths().upstream, 8);
    let n = Row::new();
    assert_eq!(n.widths().branch, 0);
    assert_eq!(Widths::max().hash, 7);
    assert_eq!(Widths::max().branch, 30);
    let facts = BranchFacts {
        name: s("feature"),
        short_hash: s("abc1234"),
        upstream: Some((s("origin/feature"), 2, 0)),
        base: None,
        subject: Some(s("Add thing")),
    };
    let row = build_row(&facts, false).unwrap();
    assert_eq!(row.ab_upstream, "+2 -0");
    assert_eq!(row.base, "");
    let bad = BranchFacts { subject: None, ..facts };
    match build_row(&bad, false) {
        Err(CliError::Generic(m)) => assert_eq!(m, "Commit has no summary"),
        _ => panic!(),
    }
    let (rows, w, errs) = build_table(vec![Ok(row), build_row(&bad, false)]);
    assert_eq!(rows.len(), 2);
    assert_eq!(errs.len(), 1);
    assert_eq!(w.branch, 7);
    assert_eq!(w.upstream, 14);
    assert_eq!(w.ab_upstream, 5);
    assert_eq!(w.base, 4);
}

fn tag_facts(name: &str, since: Option<usize>, annotated: bool) -> TagRowFacts {
    TagRowFacts {
        name: s(name),
        annotation: if annotated { Some((Some((s("Tagger"), s("1d"))), Some(s("Release")))) } else { None },
        commit_author: s("Author"),
        commit_time: s("2d"),
        commit_text: s("Commit subject"),
        since_prev: since,
    }
}

#[test]
fn tag_table_lines() {
    let rows = vec![tag_row(&tag_facts("v1.10.0", Some(12), true)), tag_row(&tag_facts("v1.9.0", None, false))];
    assert_eq!(rows[0].author, "Tagger");
    assert_eq!(rows[1].msg, "Commit subject");
    assert_eq!(tag_column_width(&rows), Some(11));
    assert_eq!(
        render_plain(&tag_table(&rows)),
        "v1.10.0 +12 Tagger, 1d \u{b7} Release\nv1.9.0      Author, 2d \u{b7} Commit subject"
    );
}

#[test]
fn list_cells_are_padded_or_cut() {
    let h = Row::header();
    let cols = Columns { hash: false, upstream: false, base: false };
    let mut w = h.widths();
    w.branch = 10;
    assert_eq!(render_plain(&display_row(&h, true, Highlight::Plain, w, cols)), "Branch     Message");
    w.branch = 4;
    assert_eq!(render_plain(&display_row(&h, true, Highlight::Plain, w, cols)), "Bra\u{2026} Message");
    let cols = Columns { hash: true, upstream: false, base: false };
    let mut r = Row::new();
    r.branch = s("main");
    r.hash = s("abc1234");
    r.subject = s("msg");
    let w = Widths { branch: 6, hash: 7, upstream: 0, ab_upstream: 0, base: 0, ab_base: 0 };
    assert_eq!(render_plain(&display_row(&r, false, Highlight::Current, w, cols)), "main   abc1234 msg");
}
