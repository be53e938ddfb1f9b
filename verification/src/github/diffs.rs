//! Pull request diffs attached to enrichment content: which records need
//! one, how the pages of a pull request's files become one diff (truncated
//! on a line boundary past a byte budget), and which pull requests are left
//! for a retry when the REST rate limit runs out.
use vstd::prelude::*;

use crate::ingestion::batch::SkippedDiff;
use crate::ingestion::contribution::{ContributionInput, EnrichmentContent};
use crate::model::ContributionType;
use crate::text::{
    owned, parse_u32, parse_u32_spec, push_char, push_range, push_str, split_chars, split_spec,
    string_from_chars, string_from_range, to_chars, utf8_len, utf8_width,
};

verus! {

/// Byte budget of a combined diff.
pub const MAX_DIFF_SIZE: usize = 20000;

/// Below this many REST calls left (but not none), a diff stops at what it
/// has.
pub const REST_RATE_LIMIT_FLOOR: i32 = 50;

// ---------------------------------------------------------------------------
// Which records need a diff
// ---------------------------------------------------------------------------

/// A pull request whose diff is fetched for the record at `item_index`.
#[derive(Debug, Clone)]
pub struct DiffTarget {
    pub item_index: usize,
    pub owner: String,
    pub repo: String,
    pub pr_number: u32,
}

/// `(owner, repo, number)` of a pull request id `owner/repo/pull/number`:
/// the first two pieces and the fourth, which must be a `u32`.
pub open spec fn pr_coordinates(platform_id: Seq<char>) -> Option<(Seq<char>, Seq<char>, u32)> {
    let parts = split_spec(platform_id, '/');
    if parts.len() >= 4 {
        match parse_u32_spec(parts[3]) {
            Some(n) => Some((parts[0], parts[1], n)),
            None => None,
        }
    } else {
        None
    }
}

pub open spec fn target_view(t: DiffTarget) -> (int, Seq<char>, Seq<char>, u32) {
    (t.item_index as int, t.owner@, t.repo@, t.pr_number)
}

/// The diff targets of the records, in order: every pull request record whose id
/// has the `owner/repo/pull/number` form.
pub open spec fn targets_of(items: Seq<ContributionInput>) -> Seq<(int, Seq<char>, Seq<char>, u32)>
    decreases items.len(),
{
    if items.len() == 0 {
        seq![]
    } else {
        let i = items.len() - 1;
        let it = items.last();
        targets_of(items.drop_last()) + if it.contribution_type == ContributionType::PullRequest {
            match pr_coordinates(it.platform_id@) {
                Some(c) => seq![(i, c.0, c.1, c.2)],
                None => seq![],
            }
        } else {
            seq![]
        }
    }
}

fn coordinates(platform_id: &str) -> (r: Option<(String, String, u32)>)
    ensures
        match r {
            Some((o, p, n)) => pr_coordinates(platform_id@) == Some((o@, p@, n)),
            None => pr_coordinates(platform_id@) is None,
        },
{
    let v = to_chars(platform_id);
    let parts = split_chars(&v, '/');
    proof {
        assert(parts@.map_values(|p: Vec<char>| p@).len() == parts@.len());
    }
    if parts.len() >= 4 {
        let number_text = string_from_chars(&parts[3]);
        proof {
            assert(parts@.map_values(|p: Vec<char>| p@)[3] == parts@[3]@);
        }
        match parse_u32(number_text.as_str()) {
            Some(n) => {
                proof {
                    assert(parts@.map_values(|p: Vec<char>| p@)[0] == parts@[0]@);
                    assert(parts@.map_values(|p: Vec<char>| p@)[1] == parts@[1]@);
                }
                Some((string_from_chars(&parts[0]), string_from_chars(&parts[1]), n))
            },
            None => None,
        }
    } else {
        None
    }
}

/// The pull requests whose diffs a batch needs.
pub fn diff_targets(items: &Vec<ContributionInput>) -> (r: Vec<DiffTarget>)
    requires
        items@.len() < usize::MAX,
    ensures
        r@.map_values(|t: DiffTarget| target_view(t)) == targets_of(items@),
{
    let mut out: Vec<DiffTarget> = Vec::new();
    let mut i: usize = 0;
    while i < items.len()
        invariant
            i <= items@.len(),
            out@.map_values(|t: DiffTarget| target_view(t)) == targets_of(items@.take(i as int)),
        decreases items.len() - i,
    {
        proof {
            assert(items@.take(i + 1).drop_last() =~= items@.take(i as int));
        }
        let ghost before = out@;
        if items[i].contribution_type == ContributionType::PullRequest {
            match coordinates(items[i].platform_id.as_str()) {
                Some((owner, repo, n)) => {
                    let t = DiffTarget { item_index: i, owner, repo, pr_number: n };
                    out.push(t);
                    proof {
                        assert(out@.map_values(|t: DiffTarget| target_view(t)) =~= before.map_values(
                            |t: DiffTarget| target_view(t),
                        ).push(target_view(t)));
                    }
                },
                None => {},
            }
        }
        i = i + 1;
    }
    proof {
        assert(items@.take(items@.len() as int) =~= items@);
    }
    out
}

// ---------------------------------------------------------------------------
// Assembling one pull request's diff
// ---------------------------------------------------------------------------

/// A changed file of a page of a pull request's files.
#[derive(Debug, Clone)]
pub struct FileChange {
    pub filename: String,
    pub patch: Option<String>,
}

/// How many leading characters of `s` fit in `budget` bytes of UTF-8.
pub open spec fn fitting(s: Seq<char>, budget: int) -> nat
    decreases s.len(),
{
    if s.len() == 0 || utf8_width(s[0]) > budget {
        0
    } else {
        1 + fitting(s.drop_first(), budget - utf8_width(s[0]))
    }
}

/// Index of the last occurrence of `c`.
pub open spec fn last_index(s: Seq<char>, c: char) -> Option<int>
    decreases s.len(),
{
    if s.len() == 0 {
        None
    } else if s.last() == c {
        Some(s.len() - 1)
    } else {
        last_index(s.drop_last(), c)
    }
}

/// A diff past its budget, cut at the last line break within the budget
/// (or at the budget) and marked as truncated.
pub open spec fn truncated(s: Seq<char>) -> Seq<char> {
    let k = fitting(s, MAX_DIFF_SIZE as int);
    let cut = match last_index(s.take(k as int), '\n') {
        Some(j) => j,
        None => k as int,
    };
    s.take(cut) + "\n...(truncated)"@
}

/// One file's contribution to the diff: a separating line break after the
/// first, then its header lines and its patch.
pub open spec fn file_text(combined: Seq<char>, f: FileChange) -> Seq<char> {
    (if combined.len() > 0 {
        seq!['\n']
    } else {
        seq![]
    }) + "--- a/"@ + f.filename@ + "\n"@ + "+++ b/"@ + f.filename@ + "\n"@ + f.patch->0@
}

/// The first file of a page, from `from` on, whose patch brings the diff
/// (grown from `start`) to its byte budget.
pub open spec fn first_over(start: Seq<char>, files: Seq<FileChange>, from: int) -> Option<int>
    decreases files.len() - from,
{
    if from < 0 || from >= files.len() {
        None
    } else if files[from].patch is Some && utf8_len(appended(start, files.take(from + 1))) >= MAX_DIFF_SIZE {
        Some(from)
    } else {
        first_over(start, files, from + 1)
    }
}

/// What became of a page of files.
pub enum PageOutcome {
    /// Fetch the page with this number next.
    NextPage(u32),
    /// The diff is done.
    Done,
    /// The budget is exceeded: the diff is done and truncated.
    Truncated,
    /// The rate limit ran out before anything was assembled.
    RateLimited,
}

/// The diff of one pull request, assembled page by page.
pub struct DiffAssembly {
    pub combined: String,
}

proof fn lemma_fitting_bound(s: Seq<char>, budget: int)
    ensures
        fitting(s, budget) <= s.len(),
        budget >= 0 ==> utf8_len(s.take(fitting(s, budget) as int)) <= budget,
    decreases s.len(),
{
    if s.len() > 0 && utf8_width(s[0]) <= budget {
        lemma_fitting_bound(s.drop_first(), budget - utf8_width(s[0]));
        lemma_utf8_len_cons(s.take(fitting(s, budget) as int));
        assert(s.take(fitting(s, budget) as int).drop_first() =~= s.drop_first().take(
            fitting(s.drop_first(), budget - utf8_width(s[0])) as int,
        ));
    }
}

proof fn lemma_utf8_len_cons(s: Seq<char>)
    requires
        s.len() > 0,
    ensures
        utf8_len(s) == utf8_width(s[0]) + utf8_len(s.drop_first()),
    decreases s.len(),
{
    if s.len() > 1 {
        lemma_utf8_len_cons(s.drop_last());
        assert(s.drop_last().drop_first() =~= s.drop_first().drop_last());
        assert(s.drop_first().last() == s.last());
        assert(s.drop_last()[0] == s[0]);
    } else {
        assert(s.drop_first() =~= Seq::<char>::empty());
        assert(s.drop_last() =~= Seq::<char>::empty());
        assert(s.last() == s[0]);
    }
}

fn char_width(c: char) -> (r: usize)
    ensures
        r == utf8_width(c),
{
    if (c as u32) < 0x80 {
        1
    } else if (c as u32) < 0x800 {
        2
    } else if (c as u32) < 0x10000 {
        3
    } else {
        4
    }
}

/// Cuts a diff at the last line break within the budget and marks it as
/// truncated.
pub fn truncate_diff(s: &str) -> (r: String)
    ensures
        r@ == truncated(s@),
{
    let v = to_chars(s);
    let mut k: usize = 0;
    let mut budget: usize = MAX_DIFF_SIZE;
    proof {
        assert(s@.subrange(0, s@.len() as int) =~= s@);
    }
    while k < v.len() && char_width(v[k]) <= budget
        invariant
            k <= v@.len(),
            v@ == s@,
            budget <= MAX_DIFF_SIZE,
            fitting(s@, MAX_DIFF_SIZE as int) == k + fitting(s@.subrange(k as int, s@.len() as int), budget as int),
        decreases v.len() - k,
    {
        let ghost rest = s@.subrange(k as int, s@.len() as int);
        proof {
            assert(rest.drop_first() =~= s@.subrange(k + 1, s@.len() as int));
            assert(rest[0] == v@[k as int]);
        }
        budget = budget - char_width(v[k]);
        k = k + 1;
    }
    proof {
        let rest = s@.subrange(k as int, s@.len() as int);
        if k < v.len() {
            assert(rest[0] == v@[k as int]);
        }
        assert(fitting(rest, budget as int) == 0);
    }
    let mut cut = k;
    let mut j = k;
    let ghost pre = s@.take(k as int);
    proof {
        assert(pre.take(k as int) =~= pre);
    }
    let mut found = false;
    while j > 0 && !found
        invariant
            j <= k <= v@.len(),
            cut <= k,
            v@ == s@,
            pre == s@.take(k as int),
            !found ==> last_index(pre, '\n') == last_index(pre.take(j as int), '\n') && cut == k,
            found ==> last_index(pre, '\n') == Some(cut as int),
        decreases j,
    {
        proof {
            assert(pre.take(j as int).drop_last() =~= pre.take(j - 1));
            assert(pre.take(j as int).last() == v@[j - 1]);
        }
        if v[j - 1] == '\n' {
            cut = j - 1;
            found = true;
            j = 0;
        } else {
            j = j - 1;
        }
    }
    proof {
        if !found {
            assert(pre.take(0) =~= Seq::<char>::empty());
        }
    }
    let mut out = string_from_range(&v, 0, cut);
    push_str(&mut out, "\n...(truncated)");
    proof {
        assert(out@ =~= truncated(s@));
    }
    out
}

impl DiffAssembly {
    pub fn new() -> (r: DiffAssembly)
        ensures
            r.combined@.len() == 0,
    {
        DiffAssembly { combined: String::new() }
    }

    /// Takes a page of a pull request's files, with the REST calls left
    /// and the next page's number. With few calls left (fewer than 50 but
    /// some) the diff stops at what it has; with none, it stops too, or
    /// reports the rate limit when nothing was assembled yet. Otherwise the
    /// page's patches are appended, each under its file's header lines; a
    /// diff that reaches its byte budget is truncated and done.
    pub fn absorb_page(&mut self, files: &Vec<FileChange>, remaining: i32, next_page: Option<u32>) -> (r: PageOutcome)
        ensures
            0 < remaining < REST_RATE_LIMIT_FLOOR ==> r is Done && final(self).combined@ == old(self).combined@,
            remaining == 0 && old(self).combined@.len() == 0 ==> r is RateLimited && final(self).combined@
                == old(self).combined@,
            remaining == 0 && old(self).combined@.len() > 0 ==> r is Done && final(self).combined@
                == old(self).combined@,
            !(0 < remaining < REST_RATE_LIMIT_FLOOR) && remaining != 0 ==> match first_over(
                old(self).combined@,
                files@,
                0,
            ) {
                Some(n) => r is Truncated && final(self).combined@ == truncated(
                    appended(old(self).combined@, files@.take(n + 1)),
                ),
                None => final(self).combined@ == appended(old(self).combined@, files@) && match next_page {
                    Some(p) => r matches PageOutcome::NextPage(q) && q == p,
                    None => r is Done,
                },
            },
    {
        if remaining < REST_RATE_LIMIT_FLOOR && remaining > 0 {
            return PageOutcome::Done;
        }
        if remaining == 0 {
            if self.combined.as_str().is_empty() {
                return PageOutcome::RateLimited;
            }
            return PageOutcome::Done;
        }
        let ghost start = self.combined@;
        let mut i: usize = 0;
        while i < files.len()
            invariant
                i <= files@.len(),
                !(0 < remaining < REST_RATE_LIMIT_FLOOR),
                remaining != 0,
                start == old(self).combined@,
                self.combined@ == appended(start, files@.take(i as int)),
                first_over(start, files@, 0) == first_over(start, files@, i as int),
            decreases files.len() - i,
        {
            proof {
                assert(files@.take(i + 1).drop_last() =~= files@.take(i as int));
            }
            let f = &files[i];
            match &f.patch {
                Some(patch) => {
                    let ghost before = self.combined@;
                    if !self.combined.as_str().is_empty() {
                        push_char(&mut self.combined, '\n');
                    }
                    push_str(&mut self.combined, "--- a/");
                    push_str(&mut self.combined, f.filename.as_str());
                    push_str(&mut self.combined, "\n");
                    push_str(&mut self.combined, "+++ b/");
                    push_str(&mut self.combined, f.filename.as_str());
                    push_str(&mut self.combined, "\n");
                    push_str(&mut self.combined, patch.as_str());
                    proof {
                        assert(self.combined@ =~= before + file_text(before, *f));
                        assert(files@.take(i + 1).last() == *f);
                        assert(self.combined@ == appended(start, files@.take(i + 1)));
                    }
                    let ghost full = self.combined@;
                    let v = to_chars(self.combined.as_str());
                    let bytes = crate::text::chars_utf8_len(&v);
                    if bytes >= MAX_DIFF_SIZE as u128 {
                        let t = truncate_diff(self.combined.as_str());
                        self.combined = t;
                        proof {
                            assert(self.combined@ == truncated(appended(start, files@.take(i + 1))));
                            assert(first_over(start, files@, i as int) == Some(i as int));
                        }
                        return PageOutcome::Truncated;
                    }
                },
                None => {},
            }
            proof {
                assert(first_over(start, files@, i as int) == first_over(start, files@, i + 1));
            }
            i = i + 1;
        }
        proof {
            assert(files@.take(files@.len() as int) =~= files@);
        }
        match next_page {
            Some(p) => PageOutcome::NextPage(p),
            None => PageOutcome::Done,
        }
    }
}

/// The diff after the patches of `files`, in order (files without a patch
/// add nothing).
pub open spec fn appended(start: Seq<char>, files: Seq<FileChange>) -> Seq<char>
    decreases files.len(),
{
    if files.len() == 0 {
        start
    } else {
        let prev = appended(start, files.drop_last());
        match files.last().patch {
            Some(_) => prev + file_text(prev, files.last()),
            None => prev,
        }
    }
}

// ---------------------------------------------------------------------------
// A batch's diffs
// ---------------------------------------------------------------------------

/// Attaches a diff to the enrichment content of a pull request record.
pub fn attach_diff(item: &mut ContributionInput, diff: String) -> (r: bool)
    ensures
        r == (old(item).enrichment_content matches Some(EnrichmentContent::PullRequest { .. })),
        r ==> (final(item).enrichment_content matches Some(EnrichmentContent::PullRequest { diff: d, .. })
            && d == Some(diff)),
        final(item).platform_id == old(item).platform_id,
        final(item).contribution_type == old(item).contribution_type,
{
    match &mut item.enrichment_content {
        Some(EnrichmentContent::PullRequest { diff: d, .. }) => {
            *d = Some(diff);
            true
        },
        _ => false,
    }
}

/// The pull requests left for a retry once the rate limit ran out at
/// target `from`: that one and every later one.
pub fn skipped_from(targets: &Vec<DiffTarget>, from: usize) -> (r: Vec<SkippedDiff>)
    requires
        from <= targets@.len(),
    ensures
        r@.len() == targets@.len() - from,
        forall|k: int|
            0 <= k < r@.len() ==> {
                let t = targets@[from + k];
                &&& (#[trigger] r@[k]).item_index == t.item_index
                &&& r@[k].owner@ == t.owner@
                &&& r@[k].repo@ == t.repo@
                &&& r@[k].pr_number == t.pr_number
            },
{
    let mut out: Vec<SkippedDiff> = Vec::new();
    let mut i = from;
    while i < targets.len()
        invariant
            from <= i <= targets@.len(),
            out@.len() == i - from,
            forall|k: int|
                0 <= k < out@.len() ==> {
                    let t = targets@[from + k];
                    &&& (#[trigger] out@[k]).item_index == t.item_index
                    &&& out@[k].owner@ == t.owner@
                    &&& out@[k].repo@ == t.repo@
                    &&& out@[k].pr_number == t.pr_number
                },
        decreases targets.len() - i,
    {
        let t = &targets[i];
        out.push(
            SkippedDiff {
                item_index: t.item_index,
                owner: t.owner.clone(),
                repo: t.repo.clone(),
                pr_number: t.pr_number,
            },
        );
        i = i + 1;
    }
    out
}

proof fn lemma_utf8_prefix_monotone(s: Seq<char>, a: int, b: int)
    requires
        0 <= a <= b <= s.len(),
    ensures
        utf8_len(s.take(a)) <= utf8_len(s.take(b)),
    decreases b - a,
{
    if a < b {
        lemma_utf8_prefix_monotone(s, a, b - 1);
        assert(s.take(b).drop_last() =~= s.take(b - 1));
    }
}

proof fn lemma_last_index_bound(s: Seq<char>, c: char)
    ensures
        last_index(s, c) matches Some(j) ==> 0 <= j < s.len(),
    decreases s.len(),
{
    if s.len() > 0 {
        lemma_last_index_bound(s.drop_last(), c);
    }
}

/// A truncated diff is a prefix of the diff that fits the byte budget,
/// followed by the truncation marker.
pub proof fn law_truncated_diff_fits(s: Seq<char>)
    ensures
        exists|cut: int|
            0 <= cut <= s.len() && truncated(s) == s.take(cut) + "\n...(truncated)"@ && utf8_len(s.take(cut))
                <= MAX_DIFF_SIZE,
{
    let k = fitting(s, MAX_DIFF_SIZE as int);
    lemma_fitting_bound(s, MAX_DIFF_SIZE as int);
    lemma_last_index_bound(s.take(k as int), '\n');
    let cut = match last_index(s.take(k as int), '\n') {
        Some(j) => j,
        None => k as int,
    };
    lemma_utf8_prefix_monotone(s, cut, k as int);
    assert(truncated(s) == s.take(cut) + "\n...(truncated)"@);
}

} // verus!
