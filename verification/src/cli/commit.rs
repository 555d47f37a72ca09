//! `commit`: what kind of commit is made, where its default message comes
//! from, how the message file is prepared and read back, and the reports.

use vstd::prelude::*;

use crate::cli::display::diff::{display_summary, files_lines, summary_header_line, DiffSummary};
use crate::cli::display::{fg, green, no_style, red};
use crate::cli::error::CliError;
use crate::cli::status::Styled;
use crate::text::{
    append_spans, flat, hashed, join, joined, lemma_lines_hashed, lemma_lines_rejoin, no_crlf, lemma_crlf_lines, lemma_pieces_last, lemma_trimmed_ignores_trailing_white, all_white, newline_pieces, strip_line_ending, lemma_lines_unbroken, lemma_pieces_concat, line,
    lines, push_str, render, starts_with, text_lines, trim, trimmed, views, Color, Span, Style,
};

verus! {

/// Options of `commit`.
#[derive(Debug)]
pub struct CommitArgs {
    /// Where to apply the commit
    pub to: Option<String>,
    /// Invoke the commit message editor
    pub edit: bool,
    /// Amend the previous commit
    pub amend: bool,
    /// Change the commit author to yourself
    pub reset_author: bool,
    /// Bypass precommit hooks
    pub bypass_hooks: bool,
    /// Words to join together as commit message
    pub words: Vec<String>,
}

/// The question asked before committing during a cherry-pick.
pub open spec fn confirm_during_pick() -> Seq<char> {
    "\nThere is currently a cherry-pick active. Cherry-picks are finished by resolving\nthe conflicts and running \"git cherry-pick --continue\", rather than committing.\n\nDo you want to commit anyway?"@
}

/// The question asked before committing during a revert.
pub open spec fn confirm_during_revert() -> Seq<char> {
    "\nThere is currently a revert active. Reverts are finished by resolving the\nconflicts and running \"git revert --continue\", rather than committing.\n\nDo you want to commit anyway?"@
}

/// The commit a message goes to: its id and the reference it is reached
/// by, as the repository gives them.
#[derive(Debug)]
pub struct CommitTarget {
    pub id: String,
    pub refname: Option<String>,
}

/// How a commit is written to the repository.
#[derive(Debug)]
pub enum CommitWrite {
    /// Rewrite `commit` in place (its parents are kept), moving `update_ref`;
    /// the committer is the signature, and the author too when
    /// `reset_author`
    Amend { commit: String, update_ref: Option<String>, reset_author: bool, message: String, tree: String },
    /// A new commit on `parents`, moving `update_ref`; author and committer
    /// are the signature
    New { update_ref: Option<String>, parents: Vec<String>, message: String, tree: String },
}

/// The text of an optional string.
pub open spec fn opt_string(s: Option<String>) -> Option<Seq<char>> {
    match s {
        Some(t) => Some(t@),
        None => None,
    }
}

/// What to do before committing while an operation is under way.
#[derive(Debug)]
pub enum Confirmation {
    /// Ask this question, then decide again with the answer
    Ask(String),
    /// The user declined: print `Cancelled commit` and stop
    Cancel,
    /// Go on with the commit
    Proceed,
}

/// What kind of commit is made.
#[derive(Debug)]
pub enum CommitType {
    Normal,
    /// Completes a merge
    Merge,
    /// Replaces the commit with this id
    Amend(String),
}

/// Where the default message comes from.
#[derive(Debug)]
pub enum MsgSourceType {
    /// A non-empty message was given on the command line
    Message,
    /// MERGE_MSG
    Merge,
    /// SQUASH_MSG
    Squash,
    /// An existing commit, by id (e.g. amend)
    Commit(String),
    /// No default message; the editor must be invoked
    Unset,
}

/// The source of the default commit message.
#[derive(Debug)]
pub struct MsgSource {
    /// The file, in the git dir, that holds the default message
    pub file_name: String,
    pub ty: MsgSourceType,
}

/// What the message source reads of the repo.
#[derive(Debug)]
pub struct MsgFacts {
    /// Whether SQUASH_MSG exists
    pub squash_msg: bool,
    /// The id of the current operation of a rebase in `rebase-merge`, when
    /// that directory exists
    pub rebase_merge: Option<String>,
    /// The same for `rebase-apply`
    pub rebase_apply: Option<String>,
}

impl CommitArgs {
    /// Decides whether to go on with the commit while a cherry-pick or a
    /// revert is under way (asked only when conflict advice is on). The
    /// answers are those given so far.
    pub fn confirm(pick_active: bool, revert_active: bool, advice: bool, pick_answer: Option<bool>,
        revert_answer: Option<bool>) -> (res: Confirmation)
        ensures
            pick_active && advice && pick_answer is None ==> (res matches Confirmation::Ask(q) && q@ == confirm_during_pick()),
            pick_active && advice && pick_answer == Some(false) ==> res is Cancel,
            !(pick_active && advice && pick_answer != Some(true)) ==> (
                revert_active && advice && revert_answer is None ==> (res matches Confirmation::Ask(q) && q@ == confirm_during_revert())),
            !(pick_active && advice && pick_answer != Some(true)) ==> (
                revert_active && advice && revert_answer == Some(false) ==> res is Cancel),
            !(pick_active && advice && pick_answer != Some(true)) && !(revert_active && advice && revert_answer != Some(true))
                ==> res is Proceed,
    {
        if pick_active && advice {
            match pick_answer {
                None => return Confirmation::Ask(String::from_str("\nThere is currently a cherry-pick active. Cherry-picks are finished by resolving\nthe conflicts and running \"git cherry-pick --continue\", rather than committing.\n\nDo you want to commit anyway?")),
                Some(false) => return Confirmation::Cancel,
                Some(true) => {},
            }
        }
        if revert_active && advice {
            match revert_answer {
                None => return Confirmation::Ask(String::from_str("\nThere is currently a revert active. Reverts are finished by resolving the\nconflicts and running \"git revert --continue\", rather than committing.\n\nDo you want to commit anyway?")),
                Some(false) => return Confirmation::Cancel,
                Some(true) => {},
            }
        }
        Confirmation::Proceed
    }

    /// The kind of commit: an amend of the target commit (an error without
    /// one), a merge while MERGE_HEAD exists, else a normal commit, which
    /// needs staged changes.
    pub fn commit_type(&self, target: Option<&str>, merge_head: bool, index_changes: bool) -> (res: Result<CommitType, CliError>)
        ensures
            self.amend && target is None ==> (res matches Err(CliError::Generic(m)) && m@ == "No current commit to amend"@),
            self.amend && target is Some ==> (res matches Ok(CommitType::Amend(id)) && id@ == target->0@),
            !self.amend && merge_head ==> res matches Ok(CommitType::Merge),
            !self.amend && !merge_head && index_changes ==> res matches Ok(CommitType::Normal),
            !self.amend && !merge_head && !index_changes ==> (res matches Err(CliError::Generic(m))
                && m@ == "Nothing to commit! Stage some changes with \"git add/rm \u{2026}\""@),
    {
        if self.amend {
            match target {
                Some(id) => Ok(CommitType::Amend(String::from_str(id))),
                None => Err(CliError::Generic(String::from_str("No current commit to amend"))),
            }
        } else if merge_head {
            Ok(CommitType::Merge)
        } else if index_changes {
            Ok(CommitType::Normal)
        } else {
            Err(CliError::Generic(String::from_str("Nothing to commit! Stage some changes with \"git add/rm \u{2026}\"")))
        }
    }

        /// How the commit is written once the message (`message`, already
    /// trimmed) and the tree are settled. An amend rewrites the target
    /// commit in place (keeping its parents), moving its reference, with the
    /// signature as committer and, with `--reset-author`, as author too. Any
    /// other commit is new: its parents are the target commit (none in an
    /// empty repository) and then, during a merge, the merge head; it moves
    /// the target's reference, or HEAD in an empty repository.
    pub fn write(&self, target: Option<&CommitTarget>, merge_head: Option<&str>, message: String, tree: &str)
        -> (res: Result<CommitWrite, CliError>)
        ensures
            self.amend && target is None ==> (res matches Err(CliError::Generic(m)) && m@ == "No current commit to amend"@),
            self.amend && target is Some ==> (res matches Ok(CommitWrite::Amend { commit, update_ref, reset_author, message: m, tree: t })
                && commit@ == target->0.id@ && opt_string(update_ref) == opt_string(target->0.refname)
                && reset_author == self.reset_author && m@ == message@ && t@ == tree@),
            !self.amend ==> (res matches Ok(CommitWrite::New { update_ref, parents, message: m, tree: t })
                && opt_string(update_ref) == (match target { Some(c) => opt_string(c.refname), None => Some("HEAD"@) })
                && views(parents@) == (match target { Some(c) => seq![c.id@], None => Seq::empty() })
                    + (match merge_head { Some(h) => seq![h@], None => Seq::empty() })
                && m@ == message@ && t@ == tree@),
    {
        if self.amend {
            match target {
                Some(c) => Ok(CommitWrite::Amend {
                    commit: c.id.clone(),
                    update_ref: c.refname.clone(),
                    reset_author: self.reset_author,
                    message,
                    tree: tree.to_string(),
                }),
                None => Err(CliError::Generic(String::from_str("No current commit to amend"))),
            }
        } else {
            let mut parents: Vec<String> = Vec::new();
            let update_ref = match target {
                Some(c) => {
                    parents.push(c.id.clone());
                    c.refname.clone()
                },
                None => Some(String::from_str("HEAD")),
            };
            let ghost first = views(parents@);
            match merge_head {
                Some(h) => parents.push(h.to_string()),
                None => {},
            }
            assert(views(parents@) =~= first + (match merge_head { Some(h) => seq![h@], None => Seq::<Seq<char>>::empty() }));
            assert(first =~= (match target { Some(c) => seq![c.id@], None => Seq::<Seq<char>>::empty() }));
            proof {
                reveal_strlit("HEAD");
            }
            Ok(CommitWrite::New { update_ref, parents, message, tree: tree.to_string() })
        }
    }

/// The message given on the command line: the words joined by spaces.
    pub fn cli_message(&self) -> (res: String)
        ensures
            res@ == joined(views(self.words@), " "@),
    {
        join(&self.words, " ")
    }

    /// Where the default message comes from, in order: words on the command
    /// line, the amended commit, a merge, SQUASH_MSG, a rebase's current
    /// operation, else nowhere (the editor must be used).
    pub fn msg_source(&self, ty: &CommitType, facts: &MsgFacts) -> (res: MsgSource)
        ensures
            self.words@.len() > 0 ==> res.file_name@ == "COMMIT_EDITMSG"@ && res.ty is Message,
            self.words@.len() == 0 && ty is Amend ==> res.file_name@ == "COMMIT_EDITMSG"@
                && (res.ty matches MsgSourceType::Commit(id) && ty matches CommitType::Amend(a) && id@ == a@),
            self.words@.len() == 0 && ty is Merge ==> res.file_name@ == "MERGE_MSG"@ && res.ty is Merge,
            self.words@.len() == 0 && ty is Normal && facts.squash_msg ==> res.file_name@ == "SQUASH_MSG"@ && res.ty is Squash,
            self.words@.len() == 0 && ty is Normal && !facts.squash_msg && facts.rebase_merge is Some
                ==> res.file_name@ == "rebase-merge/message"@
                && (res.ty matches MsgSourceType::Commit(id) && id@ == facts.rebase_merge->0@),
            self.words@.len() == 0 && ty is Normal && !facts.squash_msg && facts.rebase_merge is None && facts.rebase_apply is Some
                ==> res.file_name@ == "rebase-apply/message"@
                && (res.ty matches MsgSourceType::Commit(id) && id@ == facts.rebase_apply->0@),
            self.words@.len() == 0 && ty is Normal && !facts.squash_msg && facts.rebase_merge is None && facts.rebase_apply is None
                ==> res.file_name@ == "COMMIT_EDITMSG"@ && res.ty is Unset,
    {
        if self.words.len() > 0 {
            return MsgSource { file_name: String::from_str("COMMIT_EDITMSG"), ty: MsgSourceType::Message };
        }
        match ty {
            CommitType::Amend(id) => {
                return MsgSource { file_name: String::from_str("COMMIT_EDITMSG"), ty: MsgSourceType::Commit(id.clone()) };
            },
            CommitType::Merge => {
                return MsgSource { file_name: String::from_str("MERGE_MSG"), ty: MsgSourceType::Merge };
            },
            CommitType::Normal => {},
        }
        if facts.squash_msg {
            return MsgSource { file_name: String::from_str("SQUASH_MSG"), ty: MsgSourceType::Squash };
        }
        if let Some(id) = &facts.rebase_merge {
            return MsgSource { file_name: String::from_str("rebase-merge/message"), ty: MsgSourceType::Commit(id.clone()) };
        }
        if let Some(id) = &facts.rebase_apply {
            return MsgSource { file_name: String::from_str("rebase-apply/message"), ty: MsgSourceType::Commit(id.clone()) };
        }
        MsgSource { file_name: String::from_str("COMMIT_EDITMSG"), ty: MsgSourceType::Unset }
    }
}

impl MsgSourceType {
    /// How the source is named to the prepare-commit-msg hook.
    pub open spec fn spec_name(&self) -> Seq<char> {
        match self {
            MsgSourceType::Message => "message"@,
            MsgSourceType::Merge => "merge"@,
            MsgSourceType::Squash => "squash"@,
            MsgSourceType::Commit(_) => "commit"@,
            MsgSourceType::Unset => Seq::empty(),
        }
    }

    /// The name of the source, as the hook gets it.
    pub fn name(&self) -> (res: String)
        ensures
            res@ == self.spec_name(),
    {
        match self {
            MsgSourceType::Message => String::from_str("message"),
            MsgSourceType::Merge => String::from_str("merge"),
            MsgSourceType::Squash => String::from_str("squash"),
            MsgSourceType::Commit(_) => String::from_str("commit"),
            MsgSourceType::Unset => String::new(),
        }
    }
}

/// The arguments of the prepare-commit-msg hook: the message file, then the
/// source (and the commit id for a commit source), when there is a source.
pub open spec fn hook_args(editmsg: Seq<char>, source: MsgSource) -> Seq<Seq<char>> {
    seq![editmsg] + match source.ty {
        MsgSourceType::Unset => Seq::empty(),
        MsgSourceType::Commit(id) => seq!["commit"@, id@],
        _ => seq![source.ty.spec_name()],
    }
}

/// Builds the arguments of the prepare-commit-msg hook.
pub fn prepare_msg_hook_args(editmsg: &str, source: &MsgSource) -> (res: Vec<String>)
    ensures
        views(res@) == hook_args(editmsg@, *source),
{
    let mut out: Vec<String> = Vec::new();
    out.push(String::from_str(editmsg));
    match &source.ty {
        MsgSourceType::Unset => {},
        MsgSourceType::Commit(id) => {
            out.push(source.ty.name());
            out.push(id.clone());
        },
        _ => out.push(source.ty.name()),
    }
    assert(views(out@) =~= hook_args(editmsg@, *source));
    out
}

/// The lines of a message file that are not comments (start with `#`).
pub open spec fn uncommented(ls: Seq<Seq<char>>) -> Seq<Seq<char>> {
    ls.filter(|l: Seq<char>| !(seq!['#'].is_prefix_of(l)))
}

/// Reads the commit message back from the message file's text: every line
/// that is not a comment, joined by line breaks.
pub fn read_commit_msg(file: &str) -> (res: String)
    ensures
        res@ == joined(uncommented(text_lines(file@)), "\n"@),
{
    let ls = lines(file);
    let mut kept: Vec<String> = Vec::new();
    let mut i: usize = 0;
    while i < ls.len()
        invariant
            i <= ls@.len(),
            views(kept@) == uncommented(views(ls@).subrange(0, i as int)),
        decreases ls@.len() - i,
    {
        let ghost s = views(ls@).subrange(0, i + 1);
        assert(s.drop_last() =~= views(ls@).subrange(0, i as int));
        assert(s =~= views(ls@).subrange(0, i as int).push(ls@[i as int]@));
        proof {
            reveal_strlit("#");
            assert("#"@ =~= seq!['#']);
        }
        if !starts_with(ls[i].as_str(), "#") {
            kept.push(ls[i].clone());
        }
        proof {
            let p = |l: Seq<char>| !(seq!['#'].is_prefix_of(l));
            views(ls@).subrange(0, i as int).lemma_filter_push(ls@[i as int]@, p);
            assert(views(kept@) =~= uncommented(s));
        }
        i = i + 1;
    }
    assert(views(ls@).subrange(0, ls@.len() as int) =~= views(ls@));
    join(&kept, "\n")
}

/// The final message from the trimmed message: an empty one is an error.
pub fn checked_message(trimmed_msg: String) -> (res: Result<String, CliError>)
    ensures
        trimmed_msg@.len() > 0 ==> (res matches Ok(m) && m@ == trimmed_msg@),
        trimmed_msg@.len() == 0 ==> (res matches Err(CliError::Generic(m)) && m@ == "Must specify a commit message!"@),
{
    if trimmed_msg.unicode_len() == 0 {
        Err(CliError::Generic(String::from_str("Must specify a commit message!")))
    } else {
        Ok(trimmed_msg)
    }
}

/// The final message: the message read back, trimmed; an empty one is an
/// error.
pub fn final_message(msg: &str) -> (res: Result<String, CliError>)
    ensures
        trimmed(msg@).len() > 0 ==> (res matches Ok(m) && m@ == trimmed(msg@)),
        trimmed(msg@).len() == 0 ==> (res matches Err(CliError::Generic(m)) && m@ == "Must specify a commit message!"@),
{
    checked_message(trim(msg))
}

/// The commented lines appended to the message file: each line of the
/// plain diff summary after `# `.
pub open spec fn commented_lines(ls: Seq<Seq<char>>) -> Seq<char>
    decreases ls.len(),
{
    if ls.len() == 0 {
        Seq::empty()
    } else {
        commented_lines(ls.drop_last()) + "\n# "@ + ls.last()
    }
}

/// The content of the message file before the editor opens it: the default
/// message, where the commit goes (or that it is the first), then the diff
/// summary, each line commented out.
pub open spec fn msg_template(initial: Seq<char>, to: Option<Seq<char>>, summary: DiffSummary) -> Seq<char> {
    initial
        + (match to {
            Some(t) => "\n# Committing on "@ + t,
            None => "\n# Initial commit"@,
        })
        + commented_lines(text_lines(flat(
            summary_header_line(summary.num_files as nat, summary.insertions as nat, summary.deletions as nat)
                + files_lines(summary.files@, false))))
}

/// The part of the message file after the initial message and a line
/// break: where the commit goes, then the commented summary lines.
pub open spec fn template_rest(to: Option<Seq<char>>, ls: Seq<Seq<char>>) -> Seq<char> {
    (match to {
        Some(t) => "# Committing on "@ + t,
        None => "# Initial commit"@,
    }) + commented_lines(ls)
}

proof fn lemma_rest_hashed(to: Option<Seq<char>>, ls: Seq<Seq<char>>)
    requires
        to matches Some(t) ==> !t.contains('\n'),
        forall|k: int| 0 <= k < ls.len() ==> !(#[trigger] ls[k]).contains('\n'),
    ensures
        hashed(template_rest(to, ls)),
        template_rest(to, ls).len() > 0,
        template_rest(to, ls).last() != '\n',
    decreases ls.len(),
{
    reveal_strlit("# Committing on ");
    reveal_strlit("# Initial commit");
    reveal_strlit("\n# ");
    let head = match to {
        Some(t) => "# Committing on "@ + t,
        None => "# Initial commit"@,
    };
    if ls.len() == 0 {
        assert(template_rest(to, ls) =~= head);
        assert forall|i: int| 0 <= i < head.len() - 1 && head[i] == '\n' implies #[trigger] head[i + 1] == '#' by {
            if let Some(t) = to {
                assert(head[i] == t[i - 16]);
                assert(t.contains(t[i - 16]));
            }
        }
        if let Some(t) = to {
            if t.len() > 0 {
                assert(head.last() == t.last());
                assert(t.contains(t.last()));
            }
        }
    } else {
        let rest0 = ls.drop_last();
        lemma_rest_hashed(to, rest0);
        let x = template_rest(to, rest0);
        let l = ls.last();
        assert(!l.contains('\n'));
        let y = x + "\n# "@ + l;
        assert(template_rest(to, ls) =~= y);
        assert forall|i: int| 0 <= i < y.len() - 1 && y[i] == '\n' implies #[trigger] y[i + 1] == '#' by {
            if i < x.len() - 1 {
                assert(y[i] == x[i]);
                assert(x[i + 1] == '#');
            } else if i == x.len() - 1 {
                assert(y[i] == x.last());
            } else if i == x.len() {
                assert(y[i + 1] == '#');
            } else if i > x.len() + 2 {
                assert(y[i] == l[i - x.len() - 3]);
                assert(l.contains(l[i - x.len() - 3]));
            }
        }
        if l.len() > 0 {
            assert(y.last() == l.last());
            assert(l.contains(l.last()));
        }
    }
}

/// Reading the message file back gives the initial message: the lines the
/// template adds (where the commit goes and the diff summary) are comments,
/// and they are dropped. The initial message reads as if it ended with a
/// line break.
pub proof fn lemma_template_reads_back_as_initial(initial: Seq<char>, to: Option<Seq<char>>, summary: DiffSummary)
    requires
        to matches Some(t) ==> !t.contains('\n'),
    ensures
        joined(uncommented(text_lines(msg_template(initial, to, summary))), "\n"@)
            == joined(uncommented(text_lines(initial + seq!['\n'])), "\n"@),
{
    reveal_strlit("\n# Committing on ");
    reveal_strlit("# Committing on ");
    reveal_strlit("\n# Initial commit");
    reveal_strlit("# Initial commit");
    let summary_text = flat(
        summary_header_line(summary.num_files as nat, summary.insertions as nat, summary.deletions as nat)
            + files_lines(summary.files@, false));
    let ls = text_lines(summary_text);
    lemma_lines_unbroken(summary_text);
    lemma_rest_hashed(to, ls);
    let a = initial + seq!['\n'];
    let rest = template_rest(to, ls);
    assert(msg_template(initial, to, summary) =~= a + rest);
    lemma_pieces_concat(a, rest);
    assert(text_lines(a + rest) =~= text_lines(a) + text_lines(rest));
    lemma_lines_hashed(rest);
    let keep = |l: Seq<char>| !(seq!['#'].is_prefix_of(l));
    Seq::filter_distributes_over_add(text_lines(a), text_lines(rest), keep);
    assert(text_lines(rest).all(|x: Seq<char>| !keep(x)));
    text_lines(rest).lemma_all_neg_filter_empty(keep);
    assert(uncommented(text_lines(a)) + uncommented(text_lines(rest)) =~= uncommented(text_lines(a)));
}

/// Dropping comments from lines none of which is a comment keeps them all.
proof fn lemma_nothing_uncommented(ls: Seq<Seq<char>>)
    requires
        forall|k: int| 0 <= k < ls.len() ==> !seq!['#'].is_prefix_of(#[trigger] ls[k]),
    ensures
        uncommented(ls) == ls,
    decreases ls.len(),
{
    if ls.len() > 0 {
        let l1 = ls.drop_last();
        assert forall|k: int| 0 <= k < l1.len() implies !seq!['#'].is_prefix_of(#[trigger] l1[k]) by {
            assert(l1[k] == ls[k]);
        }
        lemma_nothing_uncommented(l1);
        reveal(Seq::filter);
        let keep = |l: Seq<char>| !(seq!['#'].is_prefix_of(l));
        assert(keep(ls[ls.len() - 1]));
        assert(ls.filter(keep) == l1.filter(keep).push(ls.last()));
        assert(l1.push(ls.last()) =~= ls);
    }
}

/// An initial message with no carriage return right before a line break
/// (or at its end), and no line that starts with `#`, reads back from the
/// message file exactly as it was, and so does its trimmed form. (A lone
/// carriage return inside a line is kept.)
pub proof fn lemma_template_reads_back_exactly(initial: Seq<char>, to: Option<Seq<char>>, summary: DiffSummary)
    requires
        to matches Some(t) ==> !t.contains('\n'),
        no_crlf(initial + seq!['\n']),
        forall|k: int| 0 <= k < text_lines(initial + seq!['\n']).len()
            ==> !seq!['#'].is_prefix_of(#[trigger] text_lines(initial + seq!['\n'])[k]),
    ensures
        joined(uncommented(text_lines(msg_template(initial, to, summary))), "\n"@) == initial,
        trimmed(joined(uncommented(text_lines(msg_template(initial, to, summary))), "\n"@)) == trimmed(initial),
{
    reveal_strlit("\n");
    lemma_template_reads_back_as_initial(initial, to, summary);
    let a = initial + seq!['\n'];
    lemma_nothing_uncommented(text_lines(a));
    assert(a.last() == '\n');
    lemma_lines_rejoin(a);
    let j = joined(text_lines(a), "\n"@);
    assert(j + "\n"@ == a);
    assert(j =~= initial) by {
        assert(j.len() == initial.len());
        assert forall|i: int| 0 <= i < j.len() implies j[i] == initial[i] by {
            assert((j + "\n"@)[i] == a[i]);
        }
    }
}

/// A text that ends in a line break, followed by one more, has one more,
/// empty, line.
proof fn lemma_one_more_line(initial: Seq<char>)
    requires
        initial.len() > 0,
        initial.last() == '\n',
    ensures
        text_lines(initial + seq!['\n']) == text_lines(initial).push(Seq::<char>::empty()),
{
    lemma_pieces_concat(initial, seq!['\n']);
    assert(seq!['\n'].drop_last() =~= Seq::<char>::empty());
    assert(newline_pieces(Seq::<char>::empty()) == Seq::<Seq<char>>::empty());
    assert(newline_pieces(seq!['\n'].drop_last()) == Seq::<Seq<char>>::empty());
    assert(seq!['\n'].last() == '\n');
    assert(newline_pieces(seq!['\n']) == Seq::<Seq<char>>::empty().push(seq!['\n']));
    assert(strip_line_ending(seq!['\n']) =~= Seq::<char>::empty());
    assert(text_lines(initial + seq!['\n']) =~= text_lines(initial).push(Seq::<char>::empty()));
}

/// Lines none of which is a comment, with an empty line after them, read
/// back as the lines joined, followed by a line break.
proof fn lemma_read_back_with_empty_line(l: Seq<Seq<char>>)
    requires
        l.len() > 0,
        forall|k: int| 0 <= k < l.len() ==> !seq!['#'].is_prefix_of(#[trigger] l[k]),
    ensures
        joined(uncommented(l.push(Seq::<char>::empty())), "\n"@) == joined(l, "\n"@) + "\n"@,
{
    lemma_nothing_uncommented(l);
    reveal(Seq::filter);
    let keep = |t: Seq<char>| !(seq!['#'].is_prefix_of(t));
    assert(keep(Seq::<char>::empty()));
    let lp = l.push(Seq::<char>::empty());
    assert(lp.drop_last() =~= l);
    assert(uncommented(lp) == uncommented(l).push(Seq::<char>::empty()));
    assert(joined(lp, "\n"@) == joined(l, "\n"@) + "\n"@ + Seq::<char>::empty());
    assert(joined(l, "\n"@) + "\n"@ + Seq::<char>::empty() =~= joined(l, "\n"@) + "\n"@);
}

/// An initial message that ends in a carriage return and a line break, and
/// is otherwise as above, reads back with a bare line break in their place;
/// trimmed, it reads back as the initial message trimmed.
pub proof fn lemma_template_reads_back_after_crlf(x: Seq<char>, to: Option<Seq<char>>, summary: DiffSummary)
    requires
        to matches Some(t) ==> !t.contains('\n'),
        no_crlf(x + seq!['\n']),
        forall|k: int| 0 <= k < text_lines(x + seq!['\n']).len()
            ==> !seq!['#'].is_prefix_of(#[trigger] text_lines(x + seq!['\n'])[k]),
    ensures
        joined(uncommented(text_lines(msg_template(x + seq!['\r', '\n'], to, summary))), "\n"@) == x + seq!['\n'],
        trimmed(joined(uncommented(text_lines(msg_template(x + seq!['\r', '\n'], to, summary))), "\n"@))
            == trimmed(x + seq!['\r', '\n']),
{
    let initial = x + seq!['\r', '\n'];
    let b = x + seq!['\n'];
    lemma_template_reads_back_as_initial(initial, to, summary);
    assert(initial.last() == '\n');
    lemma_one_more_line(initial);
    if x.len() > 0 {
        assert(b[x.len() - 1] == x.last());
        assert(b[x.len() as int] == '\n');
    }
    lemma_crlf_lines(x);
    let l = text_lines(b);
    lemma_pieces_last(b);
    assert(l.len() > 0);
    lemma_read_back_with_empty_line(l);
    assert(b.last() == '\n');
    lemma_lines_rejoin(b);
    assert(all_white(seq!['\n']));
    assert(all_white(seq!['\r', '\n']));
    lemma_trimmed_ignores_trailing_white(x, seq!['\n']);
    lemma_trimmed_ignores_trailing_white(x, seq!['\r', '\n']);
}

/// Builds the content of the message file.
pub fn build_msg_template(initial: &str, to: Option<&str>, summary: &DiffSummary) -> (res: String)
    ensures
        res@ == msg_template(initial@, match to {
            Some(t) => Some(t@),
            None => None,
        }, *summary),
{
    let mut out = String::from_str(initial);
    match to {
        Some(t) => {
            out.append("\n# Committing on ");
            out.append(t);
        },
        None => out.append("\n# Initial commit"),
    }
    let plain = render(&display_summary(summary, false), false);
    let ls = lines(plain.as_str());
    let ghost head = out@;
    let mut i: usize = 0;
    while i < ls.len()
        invariant
            i <= ls@.len(),
            out@ == head + commented_lines(views(ls@).subrange(0, i as int)),
        decreases ls@.len() - i,
    {
        let ghost s = views(ls@).subrange(0, i + 1);
        assert(s.drop_last() =~= views(ls@).subrange(0, i as int));
        out.append("\n# ");
        out.append(ls[i].as_str());
        assert(out@ =~= head + commented_lines(s));
        i = i + 1;
    }
    assert(views(ls@).subrange(0, ls@.len() as int) =~= views(ls@));
    out
}

/// An environment variable or config value the editor is looked up in.
#[derive(Debug)]
pub enum Lookup {
    Found(String),
    Unset,
    /// It could not be read (e.g. it is not unicode); the message says why
    Invalid(String),
}

/// The editor git would use: GIT_EDITOR, then core.editor, then VISUAL,
/// then EDITOR, then the platform's default. A value that cannot be read is
/// an error.
pub open spec fn editor_choice(git_editor: Lookup, core_editor: Lookup, visual: Lookup, editor: Lookup,
    windows: bool) -> Result<Seq<char>, Seq<char>> {
    match git_editor {
        Lookup::Found(e) => Ok(e@),
        Lookup::Invalid(m) => Err(m@),
        Lookup::Unset => match core_editor {
            Lookup::Found(e) => Ok(e@),
            Lookup::Invalid(m) => Err(m@),
            Lookup::Unset => match visual {
                Lookup::Found(e) => Ok(e@),
                Lookup::Invalid(m) => Err(m@),
                Lookup::Unset => match editor {
                    Lookup::Found(e) => Ok(e@),
                    Lookup::Invalid(m) => Err(m@),
                    Lookup::Unset => Ok(if windows { "notepad"@ } else { "vi"@ }),
                },
            },
        },
    }
}

fn lookup_step(l: &Lookup) -> (res: Option<Result<String, CliError>>)
    ensures
        l matches Lookup::Found(e) ==> (res matches Some(Ok(v)) && v@ == e@),
        l matches Lookup::Invalid(m) ==> (res matches Some(Err(CliError::Generic(v))) && v@ == m@),
        l is Unset ==> res is None,
{
    match l {
        Lookup::Found(e) => Some(Ok(e.clone())),
        Lookup::Invalid(m) => Some(Err(CliError::Generic(m.clone()))),
        Lookup::Unset => None,
    }
}

/// Finds the configured editor, matching git's search order.
pub fn get_editor(git_editor: &Lookup, core_editor: &Lookup, visual: &Lookup, editor: &Lookup, windows: bool)
    -> (res: Result<String, CliError>)
    ensures
        (match res {
            Ok(e) => Ok(e@),
            Err(CliError::Generic(m)) => Err(m@),
            Err(_) => Err(Seq::empty()),
        }) == editor_choice(*git_editor, *core_editor, *visual, *editor, windows),
{
    if let Some(r) = lookup_step(git_editor) {
        return r;
    }
    if let Some(r) = lookup_step(core_editor) {
        return r;
    }
    if let Some(r) = lookup_step(visual) {
        return r;
    }
    if let Some(r) = lookup_step(editor) {
        return r;
    }
    if windows { Ok(String::from_str("notepad")) } else { Ok(String::from_str("vi")) }
}

/// The shell command that opens the message file: `editor "path"`.
pub fn editor_command(editor: &str, path: &str) -> (res: String)
    ensures
        res@ == editor@ + " \""@ + path@ + "\""@,
{
    let mut out = String::from_str(editor);
    out.append(" \"");
    out.append(path);
    out.append("\"");
    out
}

/// The error of an editor that failed, with its exit code when it has one.
pub fn editor_failed(code: Option<i32>) -> (res: CliError)
    ensures
        code is None ==> (res matches CliError::Generic(m) && m@ == "Editor failed"@),
        code matches Some(c) ==> (res matches CliError::Generic(m) && m@ == "Editor failed with code: "@
            + crate::text::int_dec(c as int)),
{
    match code {
        None => CliError::Generic(String::from_str("Editor failed")),
        Some(c) => {
            let mut m = String::from_str("Editor failed with code: ");
            m.append(crate::text::i64_text(c as i64).as_str());
            CliError::Generic(m)
        },
    }
}

/// The error when the staged changes would conflict with the target branch.
pub fn conflict_error(target: &str) -> (res: CliError)
    ensures
        res matches CliError::Generic(m) && m@ == "The staged changes cannot be committed because they would result in a conflict. Check with \"git diff --cached "@
            + target@ + "\", and adjust staged changes accordingly."@,
{
    let mut m = String::from_str("The staged changes cannot be committed because they would result in a conflict. Check with \"git diff --cached ");
    m.append(target);
    m.append("\", and adjust staged changes accordingly.");
    CliError::Generic(m)
}

/// What the post-rewrite hook reads on its input: the old and new ids.
pub fn post_rewrite_input(old_id: &str, new_id: &str) -> (res: String)
    ensures
        res@ == old_id@ + " "@ + new_id@,
{
    let mut out = String::from_str(old_id);
    out.append(" ");
    out.append(new_id);
    out
}

/// `Committed to target`, or to `unknown` in red when there is no target.
pub open spec fn commit_header(target: Option<Seq<char>>) -> Styled {
    seq![("Committed"@, green()), (" to "@, no_style())] + match target {
        Some(t) => seq![(t, fg(Color::Blue))],
        None => seq![("unknown"@, red())],
    }
}

/// Displays the header line of a regular commit.
pub fn display_commit_header(target: Option<&str>) -> (res: Vec<Span>)
    ensures
        line(res@) == commit_header(match target {
            Some(t) => Some(t@),
            None => None,
        }),
{
    let mut out: Vec<Span> = Vec::new();
    push_str(&mut out, "Committed", Style::fg(Color::Green));
    push_str(&mut out, " to ", Style::none());
    match target {
        Some(t) => push_str(&mut out, t, Style::fg(Color::Blue)),
        None => push_str(&mut out, "unknown", Style::fg(Color::Red)),
    }
    proof {
        let tv = match target {
            Some(t) => Some(t@),
            None => None,
        };
        assert(line(out@) =~= commit_header(tv));
    }
    out
}

/// Displays the header line of an amend: `Amended <old hash> on <target>`.
pub fn display_amend_header(old_short_id: &str, target: &str) -> (res: Vec<Span>)
    ensures
        line(res@) == seq![("Amended"@, green()), (seq![' '], no_style()), (old_short_id@, fg(Color::Yellow)),
            (" on "@, no_style()), (target@, fg(Color::Blue))],
{
    let mut out: Vec<Span> = Vec::new();
    push_str(&mut out, "Amended", Style::fg(Color::Green));
    push_str(&mut out, " ", Style::none());
    push_str(&mut out, old_short_id, Style::fg(Color::Yellow));
    push_str(&mut out, " on ", Style::none());
    push_str(&mut out, target, Style::fg(Color::Blue));
    proof {
        reveal_strlit(" ");
        assert(" "@ =~= seq![' ']);
    }
    out
}

/// Displays the header line of a merge commit: `Merged <from> into <head>`,
/// with `unknown` in red when no branch is checked out.
pub fn display_merge_header(from: &str, head: Option<&str>) -> (res: Vec<Span>)
    ensures
        line(res@) == seq![("Merged"@, green()), (seq![' '], no_style()), (from@, fg(Color::Blue)), (" into "@, no_style())]
            + match head {
                Some(h) => seq![(h@, fg(Color::Magenta))],
                None => seq![("unknown"@, red())],
            },
{
    let mut out: Vec<Span> = Vec::new();
    push_str(&mut out, "Merged", Style::fg(Color::Green));
    push_str(&mut out, " ", Style::none());
    push_str(&mut out, from, Style::fg(Color::Blue));
    push_str(&mut out, " into ", Style::none());
    match head {
        Some(h) => push_str(&mut out, h, Style::fg(Color::Magenta)),
        None => push_str(&mut out, "unknown", Style::fg(Color::Red)),
    }
    proof {
        reveal_strlit(" ");
        assert(" "@ =~= seq![' ']);
    }
    out
}

/// The details after a commit: the commit as `show` displays it, a blank
/// line, then its diff summary.
pub fn display_commit_details(commit: Vec<Span>, summary: &DiffSummary, nerdfont: bool) -> (res: Vec<Span>)
    ensures
        line(res@) == line(commit@) + seq![("\n\n"@, no_style())]
            + summary_header_line(summary.num_files as nat, summary.insertions as nat, summary.deletions as nat)
            + files_lines(summary.files@, nerdfont),
{
    let mut out = commit;
    push_str(&mut out, "\n\n", Style::none());
    append_spans(&mut out, display_summary(summary, nerdfont));
    out
}

} // verus!
