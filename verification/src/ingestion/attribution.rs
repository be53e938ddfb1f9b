//! Attributing a batch's contributions to known people: the usernames
//! looked up, and which person each stored item is recorded under.
//!
//! A GitHub batch keeps only the items whose author is a known person; a
//! Discourse batch keeps every item, unattributed when its author is not
//! known (or has no username).
use vstd::prelude::*;

use crate::ingestion::contribution::ContributionInput;
use crate::text::str_eq;

verus! {

/// The person a username resolved to: the first entry with that username.
pub open spec fn person_of(resolved: Seq<(String, u128)>, name: Seq<char>) -> Option<u128>
    decreases resolved.len(),
{
    if resolved.len() == 0 {
        None
    } else if resolved[0].0@ == name {
        Some(resolved[0].1)
    } else {
        person_of(resolved.drop_first(), name)
    }
}

/// The person a username resolved to.
pub fn lookup_person(resolved: &Vec<(String, u128)>, name: &str) -> (r: Option<u128>)
    ensures
        r == person_of(resolved@, name@),
{
    let mut i: usize = 0;
    proof {
        assert(resolved@.skip(0) =~= resolved@);
    }
    while i < resolved.len()
        invariant
            i <= resolved@.len(),
            person_of(resolved@, name@) == person_of(resolved@.skip(i as int), name@),
        decreases resolved@.len() - i,
    {
        proof {
            assert(resolved@.skip(i as int).drop_first() =~= resolved@.skip(i + 1));
        }
        if str_eq(resolved[i].0.as_str(), name) {
            return Some(resolved[i].1);
        }
        i = i + 1;
    }
    None
}

/// The distinct usernames of a batch, in order of first appearance,
/// leaving out empty ones when `skip_empty`. Names seen are kept in a
/// `Vec` and compared as text: a hash set of `String` gives no provable
/// membership.
pub open spec fn batch_names(items: Seq<ContributionInput>, skip_empty: bool) -> Seq<Seq<char>>
    decreases items.len(),
{
    if items.len() == 0 {
        Seq::empty()
    } else {
        let before = batch_names(items.drop_last(), skip_empty);
        let u = items.last().platform_username@;
        if (skip_empty && u.len() == 0) || before.contains(u) {
            before
        } else {
            before.push(u)
        }
    }
}

pub open spec fn names_view(v: Seq<String>) -> Seq<Seq<char>> {
    v.map_values(|s: String| s@)
}

fn contains_name(v: &Vec<String>, name: &str) -> (r: bool)
    ensures
        r == names_view(v@).contains(name@),
{
    let mut i: usize = 0;
    while i < v.len()
        invariant
            i <= v@.len(),
            forall|k: int| 0 <= k < i ==> v@[k]@ != name@,
        decreases v@.len() - i,
    {
        if str_eq(v[i].as_str(), name) {
            proof {
                assert(names_view(v@)[i as int] == name@);
            }
            return true;
        }
        i = i + 1;
    }
    proof {
        if names_view(v@).contains(name@) {
            let k = choose|k: int| 0 <= k < names_view(v@).len() && names_view(v@)[k] == name@;
            assert(v@[k]@ == name@);
        }
    }
    false
}

/// The usernames a batch looks up.
pub fn batch_usernames(items: &Vec<ContributionInput>, skip_empty: bool) -> (r: Vec<String>)
    ensures
        names_view(r@) == batch_names(items@, skip_empty),
{
    let mut out: Vec<String> = Vec::new();
    let mut i: usize = 0;
    while i < items.len()
        invariant
            i <= items@.len(),
            names_view(out@) == batch_names(items@.take(i as int), skip_empty),
        decreases items@.len() - i,
    {
        let it = &items[i];
        proof {
            assert(items@.take(i + 1).drop_last() =~= items@.take(i as int));
            assert(items@.take(i + 1).last() == *it);
        }
        let u = it.platform_username.as_str();
        if !((skip_empty && u.is_empty()) || contains_name(&out, u)) {
            let ghost before = names_view(out@);
            out.push(it.platform_username.clone());
            proof {
                assert(names_view(out@) =~= before.push(u@));
            }
        }
        i = i + 1;
    }
    proof {
        assert(items@.take(items@.len() as int) =~= items@);
    }
    out
}

/// The items of a GitHub batch that are stored: those whose author is a
/// known person, as `(index, person)`, in order.
pub open spec fn attributed(items: Seq<ContributionInput>, resolved: Seq<(String, u128)>) -> Seq<(int, u128)>
    decreases items.len(),
{
    if items.len() == 0 {
        Seq::empty()
    } else {
        let before = attributed(items.drop_last(), resolved);
        match person_of(resolved, items.last().platform_username@) {
            Some(p) => before.push((items.len() - 1, p)),
            None => before,
        }
    }
}

pub open spec fn pairs_view(v: Seq<(usize, u128)>) -> Seq<(int, u128)> {
    v.map_values(|e: (usize, u128)| (e.0 as int, e.1))
}

/// Attributes a GitHub batch: the stored items with their people, and the
/// number of items skipped for an unknown author.
pub fn attribute_github_batch(items: &Vec<ContributionInput>, resolved: &Vec<(String, u128)>) -> (r: (
    Vec<(usize, u128)>,
    usize,
))
    ensures
        pairs_view(r.0@) == attributed(items@, resolved@),
        r.1 == items@.len() - r.0@.len(),
{
    let mut kept: Vec<(usize, u128)> = Vec::new();
    let mut skipped: usize = 0;
    let mut i: usize = 0;
    while i < items.len()
        invariant
            i <= items@.len(),
            pairs_view(kept@) == attributed(items@.take(i as int), resolved@),
            skipped + kept@.len() == i,
        decreases items@.len() - i,
    {
        proof {
            assert(items@.take(i + 1).drop_last() =~= items@.take(i as int));
            assert(items@.take(i + 1).last() == items@[i as int]);
        }
        match lookup_person(resolved, items[i].platform_username.as_str()) {
            Some(p) => {
                let ghost before = pairs_view(kept@);
                kept.push((i, p));
                proof {
                    assert(pairs_view(kept@) =~= before.push((i as int, p)));
                }
            },
            None => {
                skipped = skipped + 1;
            },
        }
        i = i + 1;
    }
    proof {
        assert(items@.take(items@.len() as int) =~= items@);
    }
    (kept, skipped)
}

/// The person each item of a Discourse batch is recorded under: none for
/// an item without a username.
pub open spec fn discourse_person(item: ContributionInput, resolved: Seq<(String, u128)>) -> Option<u128> {
    if item.platform_username@.len() == 0 {
        None
    } else {
        person_of(resolved, item.platform_username@)
    }
}

/// Attributes a Discourse batch: every item is stored, each with its
/// person when known.
pub fn attribute_discourse_batch(items: &Vec<ContributionInput>, resolved: &Vec<(String, u128)>) -> (r: Vec<
    Option<u128>,
>)
    ensures
        r@.len() == items@.len(),
        forall|i: int| 0 <= i < items@.len() ==> r@[i] == discourse_person(#[trigger] items@[i], resolved@),
{
    let mut out: Vec<Option<u128>> = Vec::new();
    let mut i: usize = 0;
    while i < items.len()
        invariant
            i <= items@.len(),
            out@.len() == i,
            forall|k: int| 0 <= k < i ==> out@[k] == discourse_person(#[trigger] items@[k], resolved@),
        decreases items@.len() - i,
    {
        let u = items[i].platform_username.as_str();
        let p = if u.is_empty() {
            None
        } else {
            lookup_person(resolved, u)
        };
        out.push(p);
        i = i + 1;
    }
    out
}

} // verus!
