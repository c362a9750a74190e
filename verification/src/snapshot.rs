//! Builds the snapshot of a run: one artifact per entity, one sorted
//! index page per fixed-size chunk of each sort order, and the metadata
//! record last, so that its presence signals a complete run.

use vstd::prelude::*;
use vstd::seq_lib::group_to_multiset_ensures;

use crate::db_models::EpochModel;
use crate::pagination::{chunk_page, pages_views, FIXED_PAGE_SIZE};

verus! {

/// The sort orders the snapshot precomputes index pages for.
#[derive(Clone, Copy, Debug, PartialEq, Eq, Structural)]
pub enum SortKey {
    AttestationsCount,
    DepositsCount,
    AttesterSlashingsCount,
    ProposerSlashingsCount,
    EligibleEther,
    VotedEther,
    GlobalParticipationRate,
}

impl SortKey {
    /// The path segment that addresses this sort order in the store.
    pub open spec fn id_spec(self) -> Seq<char> {
        match self {
            SortKey::AttestationsCount => "attestations_count"@,
            SortKey::DepositsCount => "deposits_count"@,
            SortKey::AttesterSlashingsCount => "attester_slashings_count"@,
            SortKey::ProposerSlashingsCount => "proposer_slashings_count"@,
            SortKey::EligibleEther => "eligible_ether"@,
            SortKey::VotedEther => "voted_ether"@,
            SortKey::GlobalParticipationRate => "global_participation_rate"@,
        }
    }

    /// Renders the path segment that addresses this sort order.
    pub fn id(&self) -> (r: String)
        ensures
            r@ == self.id_spec(),
    {
        match self {
            SortKey::AttestationsCount => String::from_str("attestations_count"),
            SortKey::DepositsCount => String::from_str("deposits_count"),
            SortKey::AttesterSlashingsCount => String::from_str("attester_slashings_count"),
            SortKey::ProposerSlashingsCount => String::from_str("proposer_slashings_count"),
            SortKey::EligibleEther => String::from_str("eligible_ether"),
            SortKey::VotedEther => String::from_str("voted_ether"),
            SortKey::GlobalParticipationRate => String::from_str("global_participation_rate"),
        }
    }
}

/// A non-negative column value as a sort key; negative values rank lowest.
pub open spec fn column_key(v: int) -> u64 {
    if v < 0 {
        0
    } else {
        v as u64
    }
}

/// An optional column value as a sort key; an absent value ranks lowest.
pub open spec fn option_column_key(v: Option<i64>) -> u64 {
    match v {
        Some(x) => column_key(x as int),
        None => 0,
    }
}

/// The sort key of one epoch row under the given order. A participation
/// rate is ranked by its value in millionths; an absent rate ranks lowest.
pub open spec fn sort_key_spec(m: EpochModel, k: SortKey) -> u64 {
    match k {
        SortKey::AttestationsCount => column_key(m.attestations_count as int),
        SortKey::DepositsCount => column_key(m.deposits_count as int),
        SortKey::AttesterSlashingsCount => column_key(m.attester_slashings_count as int),
        SortKey::ProposerSlashingsCount => column_key(m.proposer_slashings_count as int),
        SortKey::EligibleEther => option_column_key(m.eligible_ether),
        SortKey::VotedEther => option_column_key(m.voted_ether),
        SortKey::GlobalParticipationRate => match m.global_participation_rate {
            Some(rate) => {
                if rate.eligible_gwei == 0 {
                    0u64
                } else {
                    let micro = (rate.voted_gwei * 1000000) / (rate.eligible_gwei as int);
                    if micro > u64::MAX {
                        u64::MAX
                    } else {
                        micro as u64
                    }
                }
            },
            None => 0u64,
        },
    }
}

/// Computes the sort key of one epoch row under the given order.
pub fn sort_key_value(m: &EpochModel, k: SortKey) -> (r: u64)
    ensures
        r == sort_key_spec(*m, k),
{
    match k {
        SortKey::AttestationsCount => if m.attestations_count < 0 {
            0
        } else {
            m.attestations_count as u64
        },
        SortKey::DepositsCount => if m.deposits_count < 0 {
            0
        } else {
            m.deposits_count as u64
        },
        SortKey::AttesterSlashingsCount => if m.attester_slashings_count < 0 {
            0
        } else {
            m.attester_slashings_count as u64
        },
        SortKey::ProposerSlashingsCount => if m.proposer_slashings_count < 0 {
            0
        } else {
            m.proposer_slashings_count as u64
        },
        SortKey::EligibleEther => match m.eligible_ether {
            Some(x) => if x < 0 {
                0
            } else {
                x as u64
            },
            None => 0,
        },
        SortKey::VotedEther => match m.voted_ether {
            Some(x) => if x < 0 {
                0
            } else {
                x as u64
            },
            None => 0,
        },
        SortKey::GlobalParticipationRate => match m.global_participation_rate {
            Some(rate) => {
                if rate.eligible_gwei == 0 {
                    0
                } else {
                    let micro: u128 = (rate.voted_gwei as u128) * 1000000 / (
                    rate.eligible_gwei as u128);
                    proof {
                        assert(micro <= (rate.voted_gwei as u128) * 1000000);
                        assert((rate.voted_gwei as int) * 1000000 / (rate.eligible_gwei as int)
                            <= (rate.voted_gwei as int) * 1000000);
                    }
                    if micro > u64::MAX as u128 {
                        u64::MAX
                    } else {
                        micro as u64
                    }
                }
            },
            None => 0,
        },
    }
}

/// The `(sort key, entity id)` pairs of a run of epoch rows, in row order.
pub open spec fn key_pairs_spec(epochs: Seq<EpochModel>, k: SortKey) -> Seq<(u64, i64)> {
    epochs.map_values(|m: EpochModel| (sort_key_spec(m, k), m.epoch))
}

/// Builds the `(sort key, entity id)` pair of every epoch row.
pub fn key_pairs(epochs: &Vec<EpochModel>, k: SortKey) -> (r: Vec<(u64, i64)>)
    ensures
        r@ == key_pairs_spec(epochs@, k),
{
    let mut r: Vec<(u64, i64)> = Vec::new();
    let mut i: usize = 0;
    let n = epochs.len();
    while i < n
        invariant
            n == epochs@.len(),
            0 <= i <= n,
            r@ =~= key_pairs_spec(epochs@.take(i as int), k),
        decreases n - i,
    {
        let key = sort_key_value(&epochs[i], k);
        r.push((key, epochs[i].epoch));
        proof {
            assert(r@ =~= key_pairs_spec(epochs@.take(i as int + 1), k));
        }
        i = i + 1;
    }
    proof {
        assert(epochs@.take(n as int) =~= epochs@);
    }
    r
}

/// Whether a run of pairs is ascending in its sort keys.
pub open spec fn sorted_pairs(s: Seq<(u64, i64)>) -> bool {
    forall|i: int, j: int| 0 <= i < j < s.len() ==> (#[trigger] s[i]).0 <= (#[trigger] s[j]).0
}

/// Sorts the pairs ascending by sort key. The result is a permutation of
/// the input: nothing added, nothing dropped.
pub fn sort_pairs(items: Vec<(u64, i64)>) -> (r: Vec<(u64, i64)>)
    ensures
        sorted_pairs(r@),
        r@.to_multiset() == items@.to_multiset(),
{
    broadcast use group_to_multiset_ensures;

    let mut out: Vec<(u64, i64)> = Vec::new();
    let mut i: usize = 0;
    let n = items.len();
    while i < n
        invariant
            n == items@.len(),
            0 <= i <= n,
            sorted_pairs(out@),
            out@.to_multiset() == items@.take(i as int).to_multiset(),
        decreases n - i,
    {
        let x = items[i];
        let mut j: usize = out.len();
        while j > 0 && out[j - 1].0 > x.0
            invariant
                0 <= j <= out@.len(),
                forall|t: int| j <= t < out@.len() ==> (#[trigger] out@[t]).0 > x.0,
            decreases j,
        {
            j = j - 1;
        }
        let ghost pre = out@;
        out.insert(j, x);
        proof {
            out@.to_multiset_ensures();
            pre.to_multiset_ensures();
            items@.take(i as int).to_multiset_ensures();
            assert(out@.remove(j as int) =~= pre);
            assert(out@[j as int] == x);
            assert(out@.remove(j as int).to_multiset() =~= out@.to_multiset().remove(x));
            assert(out@.contains(x)) by {
                assert(out@[j as int] == x);
            }
            assert(out@.to_multiset().count(x) > 0);
            assert(out@.to_multiset() =~= pre.to_multiset().insert(x));
            assert(items@.take(i as int + 1) =~= items@.take(i as int).push(x));
            assert(items@.take(i as int + 1).to_multiset() =~= items@.take(
                i as int,
            ).to_multiset().insert(x));
            assert(sorted_pairs(out@)) by {
                assert(forall|t: int| 0 <= t < j ==> out@[t] == pre[t]);
                assert(forall|t: int| j < t < out@.len() ==> out@[t] == pre[t - 1]);
            }
        }
        i = i + 1;
    }
    proof {
        assert(items@.take(n as int) =~= items@);
    }
    out
}

/// The entity ids of a run of pairs, in pair order.
pub open spec fn ids_of_pairs_spec(pairs: Seq<(u64, i64)>) -> Seq<i64> {
    pairs.map_values(|p: (u64, i64)| p.1)
}

/// Projects the entity ids out of a run of pairs.
pub fn ids_of_pairs(pairs: &Vec<(u64, i64)>) -> (r: Vec<i64>)
    ensures
        r@ == ids_of_pairs_spec(pairs@),
{
    let mut r: Vec<i64> = Vec::new();
    let mut i: usize = 0;
    let n = pairs.len();
    while i < n
        invariant
            n == pairs@.len(),
            0 <= i <= n,
            r@ =~= ids_of_pairs_spec(pairs@.take(i as int)),
        decreases n - i,
    {
        r.push(pairs[i].1);
        proof {
            assert(r@ =~= ids_of_pairs_spec(pairs@.take(i as int + 1)));
        }
        i = i + 1;
    }
    proof {
        assert(pairs@.take(n as int) =~= pairs@);
    }
    r
}

/// Splits a sorted id run into stored index pages: fixed-size chunks,
/// page `p` (1-based) holding exactly the `p`-th chunk.
pub fn chunk_ids(ids: &Vec<i64>) -> (r: Vec<Vec<i64>>)
    requires
        ids@.len() + FIXED_PAGE_SIZE <= usize::MAX,
    ensures
        r@.len() == (ids@.len() + FIXED_PAGE_SIZE - 1) / (FIXED_PAGE_SIZE as int),
        forall|p: int| 0 <= p < r@.len() ==> (#[trigger] r@[p])@ == chunk_page(ids@, p + 1),
{
    let sz = FIXED_PAGE_SIZE as usize;
    let n = ids.len();
    let pages: usize = (n + sz - 1) / sz;
    let mut r: Vec<Vec<i64>> = Vec::new();
    let mut p: usize = 0;
    while p < pages
        invariant
            sz == FIXED_PAGE_SIZE,
            n == ids@.len(),
            n + FIXED_PAGE_SIZE <= usize::MAX,
            pages == (n + FIXED_PAGE_SIZE - 1) / (FIXED_PAGE_SIZE as int),
            0 <= p <= pages,
            r@.len() == p,
            forall|q: int| 0 <= q < r@.len() ==> (#[trigger] r@[q])@ =~= chunk_page(ids@, q + 1),
        decreases pages - p,
    {
        proof {
            assert((pages as int) * (FIXED_PAGE_SIZE as int) <= n + FIXED_PAGE_SIZE - 1);
            assert((p as int) * (FIXED_PAGE_SIZE as int) + FIXED_PAGE_SIZE <= (pages as int) * (
            FIXED_PAGE_SIZE as int));
        }
        let start: usize = p * sz;
        let end: usize = if start + sz > n {
            n
        } else {
            start + sz
        };
        let mut page: Vec<i64> = Vec::new();
        let mut j: usize = start;
        while j < end
            invariant
                start <= j <= end <= n == ids@.len(),
                start < n,
                page@ =~= ids@.subrange(start as int, j as int),
            decreases end - j,
        {
            page.push(ids[j]);
            proof {
                assert(page@ =~= ids@.subrange(start as int, j as int + 1));
            }
            j = j + 1;
        }
        proof {
            assert(page@ =~= chunk_page(ids@, p as int + 1));
        }
        r.push(page);
        p = p + 1;
    }
    r
}

/// The sorted index pages of one sort order hold the epochs' entity ids,
/// reordered ascending by that order's key — a permutation, nothing added
/// and nothing dropped — and split into the fixed-size chunks the store
/// serves.
pub open spec fn index_pages_of(
    epochs: Seq<EpochModel>,
    k: SortKey,
    pages: Seq<Seq<i64>>,
) -> bool {
    exists|sorted: Seq<(u64, i64)>|
        {
            &&& #[trigger] sorted.to_multiset() == key_pairs_spec(epochs, k).to_multiset()
            &&& sorted_pairs(sorted)
            &&& pages.len() == (sorted.len() + FIXED_PAGE_SIZE - 1) / (FIXED_PAGE_SIZE as int)
            &&& forall|p: int|
                0 <= p < pages.len() ==> #[trigger] pages[p] == chunk_page(
                    ids_of_pairs_spec(sorted),
                    p + 1,
                )
        }
}

/// One individually addressable artifact of the snapshot.
#[derive(Clone, Copy, Debug, PartialEq, Eq, Structural)]
pub enum ArtifactId {
    /// The record of one epoch, keyed by its entity id.
    Epoch(i64),
    /// One sorted index page: a sort order and a 1-based page number.
    SortPage(SortKey, u64),
    /// The metadata record that closes a run.
    Meta,
}

/// The per-entity artifacts of a run of epoch rows, in row order.
pub open spec fn epoch_artifacts_spec(epochs: Seq<EpochModel>) -> Seq<ArtifactId> {
    epochs.map_values(|m: EpochModel| ArtifactId::Epoch(m.epoch))
}

/// The index-page artifacts of one sort order: pages 1 through
/// `pages_per_key`.
pub open spec fn sort_page_run_spec(k: SortKey, pages_per_key: u64) -> Seq<ArtifactId> {
    Seq::new(pages_per_key as nat, |p: int| ArtifactId::SortPage(k, (p + 1) as u64))
}

/// The index-page artifacts of every sort order, in key order.
pub open spec fn sort_artifacts_spec(keys: Seq<SortKey>, pages_per_key: u64) -> Seq<ArtifactId>
    decreases keys.len(),
{
    if keys.len() == 0 {
        Seq::<ArtifactId>::empty()
    } else {
        sort_artifacts_spec(keys.drop_last(), pages_per_key) + sort_page_run_spec(
            keys.last(),
            pages_per_key,
        )
    }
}

/// The full artifact plan of a run: entities, then index pages, then the
/// metadata record last.
pub open spec fn artifact_plan_spec(
    epochs: Seq<EpochModel>,
    keys: Seq<SortKey>,
    pages_per_key: u64,
) -> Seq<ArtifactId> {
    epoch_artifacts_spec(epochs) + sort_artifacts_spec(keys, pages_per_key) + seq![
        ArtifactId::Meta,
    ]
}

proof fn lemma_sort_artifacts_take_extend(keys: Seq<SortKey>, pages_per_key: u64, k: int)
    requires
        0 <= k < keys.len(),
    ensures
        sort_artifacts_spec(keys.take(k + 1), pages_per_key) == sort_artifacts_spec(
            keys.take(k),
            pages_per_key,
        ) + sort_page_run_spec(keys[k], pages_per_key),
{
    assert(keys.take(k + 1).drop_last() =~= keys.take(k));
    assert(keys.take(k + 1).last() == keys[k]);
}

/// Builds snapshot artifacts from datastore rows.
pub struct Indexer {}

impl Indexer {
    /// Plans the artifacts of a run: one per epoch row in row order, then
    /// the index pages of each sort order, and the metadata record last —
    /// its presence signals a complete run.
    pub fn artifact_plan(
        &self,
        epochs: &Vec<EpochModel>,
        sort_keys: &Vec<SortKey>,
        pages_per_key: u64,
    ) -> (r: Vec<ArtifactId>)
        requires
            epochs@.len() + sort_keys@.len() * pages_per_key + 1 <= usize::MAX,
        ensures
            r@ == artifact_plan_spec(epochs@, sort_keys@, pages_per_key),
            r@.len() > 0 && r@.last() == ArtifactId::Meta,
    {
        let mut r: Vec<ArtifactId> = Vec::new();
        let n = epochs.len();
        let mut i: usize = 0;
        while i < n
            invariant
                n == epochs@.len(),
                0 <= i <= n,
                r@ =~= epoch_artifacts_spec(epochs@.take(i as int)),
            decreases n - i,
        {
            r.push(ArtifactId::Epoch(epochs[i].epoch));
            proof {
                assert(r@ =~= epoch_artifacts_spec(epochs@.take(i as int + 1)));
            }
            i = i + 1;
        }
        proof {
            assert(epochs@.take(n as int) =~= epochs@);
        }
        let nk = sort_keys.len();
        let mut k: usize = 0;
        while k < nk
            invariant
                n == epochs@.len(),
                nk == sort_keys@.len(),
                n + nk * pages_per_key + 1 <= usize::MAX,
                0 <= k <= nk,
                r@ =~= epoch_artifacts_spec(epochs@) + sort_artifacts_spec(
                    sort_keys@.take(k as int),
                    pages_per_key,
                ),
            decreases nk - k,
        {
            let key = sort_keys[k];
            let ghost before = r@;
            let mut p: u64 = 0;
            while p < pages_per_key
                invariant
                    n + nk * pages_per_key + 1 <= usize::MAX,
                    0 <= k < nk == sort_keys@.len(),
                    0 <= p <= pages_per_key,
                    key == sort_keys@[k as int],
                    r@ =~= before + sort_page_run_spec(key, pages_per_key).take(p as int),
                decreases pages_per_key - p,
            {
                r.push(ArtifactId::SortPage(key, p + 1));
                proof {
                    assert(r@ =~= before + sort_page_run_spec(key, pages_per_key).take(
                        p as int + 1,
                    ));
                }
                p = p + 1;
            }
            proof {
                assert(sort_page_run_spec(key, pages_per_key).take(pages_per_key as int)
                    =~= sort_page_run_spec(key, pages_per_key));
                lemma_sort_artifacts_take_extend(sort_keys@, pages_per_key, k as int);
            }
            k = k + 1;
        }
        proof {
            assert(sort_keys@.take(nk as int) =~= sort_keys@);
        }
        r.push(ArtifactId::Meta);
        proof {
            assert(r@ =~= artifact_plan_spec(epochs@, sort_keys@, pages_per_key));
        }
        r
    }

    /// Builds the sorted index pages of one sort order: key every epoch
    /// row, sort ascending by the key, and chunk the resulting id run
    /// into fixed-size pages.
    pub fn sort_index_pages(&self, epochs: &Vec<EpochModel>, k: SortKey) -> (r: Vec<Vec<i64>>)
        requires
            epochs@.len() + FIXED_PAGE_SIZE <= usize::MAX,
        ensures
            index_pages_of(epochs@, k, pages_views(r@)),
    {
        let pairs = key_pairs(epochs, k);
        let sorted = sort_pairs(pairs);
        proof {
            sorted@.to_multiset_ensures();
            key_pairs_spec(epochs@, k).to_multiset_ensures();
            assert(sorted@.len() == epochs@.len());
        }
        let ids = ids_of_pairs(&sorted);
        let pages = chunk_ids(&ids);
        proof {
            let ghost_sorted = sorted@;
            assert(pages_views(pages@).len() == pages@.len());
            assert(forall|p: int|
                0 <= p < pages@.len() ==> #[trigger] pages_views(pages@)[p] == (pages@[p])@);
            assert({
                &&& ghost_sorted.to_multiset() == key_pairs_spec(epochs@, k).to_multiset()
                &&& sorted_pairs(ghost_sorted)
                &&& pages_views(pages@).len() == (ghost_sorted.len() + FIXED_PAGE_SIZE - 1) / (
                FIXED_PAGE_SIZE as int)
                &&& forall|p: int|
                    0 <= p < pages_views(pages@).len() ==> #[trigger] pages_views(pages@)[p]
                        == chunk_page(ids_of_pairs_spec(ghost_sorted), p + 1)
            });
            assert(index_pages_of(epochs@, k, pages_views(pages@)));
        }
        pages
    }
}


} // verus!
