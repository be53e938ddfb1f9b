//! Which stored contributions are queued for enrichment, and with which
//! content.
use vstd::prelude::*;

use crate::ingestion::contribution::ContributionInput;
use crate::text::str_eq;

verus! {

/// The item whose enrichment content goes with a platform id: the last item
/// of the batch with that id that carries content.
pub open spec fn content_index(items: Seq<ContributionInput>, platform_id: Seq<char>) -> Option<int>
    decreases items.len(),
{
    if items.len() == 0 {
        None
    } else if items.last().platform_id@ == platform_id && items.last().enrichment_content is Some {
        Some(items.len() - 1)
    } else {
        content_index(items.drop_last(), platform_id)
    }
}

/// The queue entries of a batch: for each upserted `(contribution id,
/// platform id)`, in order, the contribution with the index of the item
/// whose content it is queued with; contributions without content are
/// left out.
pub open spec fn queue_entries(items: Seq<ContributionInput>, upserted: Seq<(u128, String)>) -> Seq<(u128, int)>
    decreases upserted.len(),
{
    if upserted.len() == 0 {
        Seq::empty()
    } else {
        let before = queue_entries(items, upserted.drop_last());
        let (id, pid) = upserted.last();
        match content_index(items, pid@) {
            Some(i) => before.push((id, i)),
            None => before,
        }
    }
}

pub open spec fn entries_view(v: Seq<(u128, usize)>) -> Seq<(u128, int)> {
    v.map_values(|e: (u128, usize)| (e.0, e.1 as int))
}

fn find_content(items: &Vec<ContributionInput>, platform_id: &String) -> (r: Option<usize>)
    ensures
        match r {
            Some(i) => content_index(items@, platform_id@) == Some(i as int),
            None => content_index(items@, platform_id@) is None,
        },
{
    let mut n: usize = items.len();
    proof {
        assert(items@.take(n as int) =~= items@);
    }
    while n > 0
        invariant
            n <= items@.len(),
            content_index(items@, platform_id@) == content_index(items@.take(n as int), platform_id@),
        decreases n,
    {
        let it = &items[n - 1];
        proof {
            assert(items@.take(n as int).drop_last() =~= items@.take(n - 1));
            assert(items@.take(n as int).last() == *it);
        }
        if it.enrichment_content.is_some() && str_eq(it.platform_id.as_str(), platform_id.as_str()) {
            return Some(n - 1);
        }
        n = n - 1;
    }
    None
}

/// The entries to queue for enrichment after a batch was upserted.
pub fn enrichment_entries(items: &Vec<ContributionInput>, upserted: &Vec<(u128, String)>) -> (r: Vec<
    (u128, usize),
>)
    ensures
        entries_view(r@) == queue_entries(items@, upserted@),
        forall|k: int| 0 <= k < r@.len() ==> (#[trigger] r@[k]).1 < items@.len(),
{
    let mut out: Vec<(u128, usize)> = Vec::new();
    let mut i: usize = 0;
    proof {
        assert(items@.take(items@.len() as int) =~= items@);
    }
    while i < upserted.len()
        invariant
            i <= upserted@.len(),
            entries_view(out@) == queue_entries(items@, upserted@.take(i as int)),
            forall|k: int| 0 <= k < out@.len() ==> (#[trigger] out@[k]).1 < items@.len(),
        decreases upserted@.len() - i,
    {
        proof {
            assert(upserted@.take(i + 1).drop_last() =~= upserted@.take(i as int));
            assert(upserted@.take(i + 1).last() == upserted@[i as int]);
        }
        let (id, pid) = &upserted[i];
        match find_content(items, pid) {
            Some(k) => {
                proof {
                    lemma_content_index_bound(items@, pid@);
                }
                let ghost before = out@;
                out.push((*id, k));
                proof {
                    assert(entries_view(out@) =~= entries_view(before).push((*id, k as int)));
                }
            },
            None => {},
        }
        i = i + 1;
    }
    proof {
        assert(upserted@.take(upserted@.len() as int) =~= upserted@);
    }
    out
}

proof fn lemma_content_index_bound(items: Seq<ContributionInput>, pid: Seq<char>)
    ensures
        content_index(items, pid) matches Some(i) ==> 0 <= i < items.len()
            && items[i].platform_id@ == pid && items[i].enrichment_content is Some,
    decreases items.len(),
{
    if items.len() > 0 {
        lemma_content_index_bound(items.drop_last(), pid);
    }
}

} // verus!
