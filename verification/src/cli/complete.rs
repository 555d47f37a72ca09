//! Dynamic shell completions: the branches, remotes, revisions or projects
//! that start with what has been typed.

use vstd::prelude::*;

use crate::text::{join, joined, starts_with, views};

verus! {

/// The type of value to complete.
#[derive(Clone, Copy, PartialEq, Eq, Structural, Debug)]
pub enum CompletionType {
    Branch,
    Remote,
    Rev,
    Project,
}

/// Options of `complete`.
#[derive(Debug)]
pub struct Args {
    /// The type of value to complete
    pub comp_type: CompletionType,
    /// The value being completed
    pub value: String,
}

/// The names that start with `prefix`, in their order.
pub open spec fn matching(names: Seq<Seq<char>>, prefix: Seq<char>) -> Seq<Seq<char>> {
    names.filter(|n: Seq<char>| prefix.is_prefix_of(n))
}

/// The special revisions offered, in order, when they exist.
pub open spec fn special_revs() -> Seq<Seq<char>> {
    seq!["HEAD"@, "ORIG_HEAD"@, "MERGE_HEAD"@, "FETCH_HEAD"@, "CHERRY_PICK_HEAD"@, "REVERT_HEAD"@]
}

/// The names whose flag is set, in order.
pub open spec fn present(names: Seq<Seq<char>>, flags: Seq<bool>) -> Seq<Seq<char>>
    decreases names.len(),
{
    if names.len() == 0 || flags.len() == 0 {
        Seq::empty()
    } else {
        present(names.drop_last(), flags.drop_last())
            + (if flags.last() { seq![names.last()] } else { Seq::empty() })
    }
}

/// Every completion offered starts with the typed value and is one of the
/// candidates, and every candidate that starts with it is offered.
pub proof fn lemma_matching_offers_exactly_the_prefixed(names: Seq<Seq<char>>, prefix: Seq<char>)
    ensures
        forall|i: int| 0 <= i < matching(names, prefix).len() ==> {
            &&& prefix.is_prefix_of(#[trigger] matching(names, prefix)[i])
            &&& names.contains(matching(names, prefix)[i])
        },
        forall|n: Seq<char>| #[trigger] names.contains(n) && prefix.is_prefix_of(n) ==> matching(names, prefix).contains(n),
{
    let pred = |n: Seq<char>| prefix.is_prefix_of(n);
    broadcast use vstd::seq_lib::group_filter_ensures;
    assert forall|i: int| 0 <= i < matching(names, prefix).len() implies names.contains(#[trigger] matching(names, prefix)[i]) by {
        names.lemma_filter_contains_rev(pred, matching(names, prefix)[i]);
    }
    assert forall|n: Seq<char>| #[trigger] names.contains(n) && prefix.is_prefix_of(n) implies matching(names, prefix).contains(n) by {
        let k = choose|k: int| 0 <= k < names.len() && names[k] == n;
        assert(pred(names[k]));
    }
}

/// The special revisions, in order.
pub fn special_rev_names() -> (res: Vec<String>)
    ensures
        views(res@) == special_revs(),
{
    let mut out: Vec<String> = Vec::new();
    out.push(String::from_str("HEAD"));
    out.push(String::from_str("ORIG_HEAD"));
    out.push(String::from_str("MERGE_HEAD"));
    out.push(String::from_str("FETCH_HEAD"));
    out.push(String::from_str("CHERRY_PICK_HEAD"));
    out.push(String::from_str("REVERT_HEAD"));
    assert(views(out@) =~= special_revs());
    out
}

impl Args {
    /// The candidates that start with the typed value, in their order.
    pub fn find_matching(&self, candidates: &Vec<String>) -> (res: Vec<String>)
        ensures
            views(res@) == matching(views(candidates@), self.value@),
    {
        let mut out: Vec<String> = Vec::new();
        let mut i: usize = 0;
        while i < candidates.len()
            invariant
                i <= candidates@.len(),
                views(out@) == matching(views(candidates@).subrange(0, i as int), self.value@),
            decreases candidates@.len() - i,
        {
            let ghost prev = views(candidates@).subrange(0, i as int);
            assert(views(candidates@).subrange(0, i + 1) =~= prev.push(candidates@[i as int]@));
            let ghost before = out@;
            if starts_with(candidates[i].as_str(), self.value.as_str()) {
                out.push(candidates[i].clone());
                assert(views(out@) =~= views(before).push(candidates@[i as int]@));
            }
            proof {
                prev.lemma_filter_push(candidates@[i as int]@, |n: Seq<char>| self.value@.is_prefix_of(n));
            }
            i = i + 1;
        }
        assert(views(candidates@).subrange(0, candidates@.len() as int) =~= views(candidates@));
        out
    }

    /// The revisions offered: local branches, then remote branches, then
    /// tags, then the special revisions that exist (`exists` tells which,
    /// in the order of [special_revs]), each that starts with the typed
    /// value.
    pub fn find_matching_revs(&self, locals: &Vec<String>, remotes: &Vec<String>, tags: &Vec<String>, exists: &Vec<bool>)
        -> (res: Vec<String>)
        requires
            exists@.len() == 6,
        ensures
            views(res@) == matching(views(locals@) + views(remotes@) + views(tags@)
                + present(special_revs(), exists@), self.value@),
    {
        let mut names: Vec<String> = Vec::new();
        append_all(&mut names, locals);
        append_all(&mut names, remotes);
        append_all(&mut names, tags);
        let specials = special_rev_names();
        assert(specials@.len() == views(specials@).len());
        let mut kept: Vec<String> = Vec::new();
        let mut i: usize = 0;
        while i < 6
            invariant
                i <= 6,
                exists@.len() == 6,
                specials@.len() == 6,
                views(specials@) == special_revs(),
                views(kept@) == present(special_revs().subrange(0, i as int), exists@.subrange(0, i as int)),
            decreases 6 - i,
        {
            let ghost before = views(kept@);
            assert(views(specials@)[i as int] == specials@[i as int]@);
            if exists[i] {
                kept.push(specials[i].clone());
                assert(views(kept@) =~= before.push(special_revs()[i as int]));
            }
            proof {
                let s = special_revs().subrange(0, i + 1);
                let e = exists@.subrange(0, i + 1);
                assert(s.drop_last() =~= special_revs().subrange(0, i as int));
                assert(e.drop_last() =~= exists@.subrange(0, i as int));
                assert(s.last() == special_revs()[i as int]);
                assert(e.last() == exists@[i as int]);
                assert(views(kept@) =~= present(s, e));
            }
            i = i + 1;
        }
        assert(special_revs().subrange(0, 6) =~= special_revs());
        assert(exists@.subrange(0, 6) =~= exists@);
        append_all(&mut names, &kept);
        self.find_matching(&names)
    }
}

/// Appends copies of all the strings of `more`.
fn append_all(out: &mut Vec<String>, more: &Vec<String>)
    ensures
        views(final(out)@) == views(old(out)@) + views(more@),
{
    let mut i: usize = 0;
    while i < more.len()
        invariant
            i <= more@.len(),
            views(out@) == views(old(out)@) + views(more@).subrange(0, i as int),
        decreases more@.len() - i,
    {
        let ghost before = views(out@);
        out.push(more[i].clone());
        assert(views(out@) =~= before.push(more@[i as int]@));
        assert(views(more@).subrange(0, i + 1) =~= views(more@).subrange(0, i as int).push(more@[i as int]@));
        i = i + 1;
    }
    assert(views(more@).subrange(0, more@.len() as int) =~= views(more@));
}

/// The reply: the matches separated by spaces.
pub fn print_matches(matches: &Vec<String>) -> (res: String)
    ensures
        res@ == joined(views(matches@), " "@),
{
    join(matches, " ")
}

} // verus!
