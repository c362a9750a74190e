//! Resolves a paginated read request into concrete entity ids.
//!
//! The snapshot stores sorted index pages of a fixed size. A caller may ask
//! for any page size and either sort direction, so a request is resolved in
//! three steps: pick the fixed-size index pages that overlap the requested
//! window, concatenate their contents, and slice — directly for ascending
//! order, after a reversal and a skip correction for descending order.

use vstd::prelude::*;

verus! {

/// The fixed number of entity ids per stored index page.
pub const FIXED_PAGE_SIZE: u64 = 10;

/// First rank (0-based, in the requested order) of the requested window.
pub open spec fn window_lo(total: u64, page_index: u64, page_size: u64) -> int {
    if page_index * page_size > total {
        total as int
    } else {
        (page_index * page_size) as int
    }
}

/// One-past-last rank (0-based, in the requested order) of the requested
/// window.
pub open spec fn window_hi(total: u64, page_index: u64, page_size: u64) -> int {
    if page_index * page_size + page_size > total {
        total as int
    } else {
        (page_index * page_size + page_size) as int
    }
}

/// First ascending rank covered by the request: the window itself when
/// ascending, its mirror image when descending.
pub open spec fn covered_lo(total: u64, page_index: u64, page_size: u64, desc: bool) -> int {
    if desc {
        total - window_hi(total, page_index, page_size)
    } else {
        window_lo(total, page_index, page_size)
    }
}

/// One-past-last ascending rank covered by the request.
pub open spec fn covered_hi(total: u64, page_index: u64, page_size: u64, desc: bool) -> int {
    if desc {
        total - window_lo(total, page_index, page_size)
    } else {
        window_hi(total, page_index, page_size)
    }
}

/// Number of the first stored page overlapping ascending rank `lo`
/// (pages are 1-based).
pub open spec fn first_page_spec(lo: int) -> int {
    lo / (FIXED_PAGE_SIZE as int) + 1
}

/// Number of the last stored page overlapping ascending ranks below `hi`.
pub open spec fn last_page_spec(hi: int) -> int {
    (hi + FIXED_PAGE_SIZE - 1) / (FIXED_PAGE_SIZE as int)
}

/// The contents of stored page `p` under the full ascending id sequence
/// `all`: its chunk of `FIXED_PAGE_SIZE` consecutive ids.
pub open spec fn chunk_page(all: Seq<i64>, p: int) -> Seq<i64> {
    let lo = (p - 1) * (FIXED_PAGE_SIZE as int);
    let hi = if p * (FIXED_PAGE_SIZE as int) > all.len() {
        all.len() as int
    } else {
        p * (FIXED_PAGE_SIZE as int)
    };
    all.subrange(lo, hi)
}

/// Concatenation of the stored pages `first ..= last` of `all`.
pub open spec fn chunks_range(all: Seq<i64>, first: int, last: int) -> Seq<i64>
    decreases last - first + 1,
{
    if first > last {
        Seq::<i64>::empty()
    } else {
        chunks_range(all, first, last - 1) + chunk_page(all, last)
    }
}

/// Concatenation of a run of fetched pages.
pub open spec fn concat_ids(pages: Seq<Seq<i64>>) -> Seq<i64>
    decreases pages.len(),
{
    if pages.len() == 0 {
        Seq::<i64>::empty()
    } else {
        concat_ids(pages.drop_last()) + pages.last()
    }
}

/// The views of a run of fetched page vectors.
pub open spec fn pages_views(pages: Seq<Vec<i64>>) -> Seq<Seq<i64>> {
    pages.map_values(|v: Vec<i64>| v@)
}

/// The skip correction applied after reversing the concatenated pages of a
/// descending request: the tail chunk of the ascending order is shorter
/// than a full page, so every descending page but the first starts that
/// many ids into a reversed chunk run.
pub open spec fn desc_skip(total: u64, page_index: u64) -> int {
    if page_index == 0 {
        0
    } else {
        FIXED_PAGE_SIZE - (total % FIXED_PAGE_SIZE)
    }
}

/// Resolves an unsorted request: ids are the natural 1-based sequence, so
/// the page is the consecutive run `page_index * page_size + 1 ..=
/// min(page_index * page_size + page_size, total)`.
pub fn resolve_sequential(total: u64, page_index: u64, page_size: u64) -> (r: Vec<i64>)
    requires
        total <= i64::MAX,
        (page_index as int) * (page_size as int) + (page_size as int) <= u64::MAX,
    ensures
        r@.len() == window_hi(total, page_index, page_size) - window_lo(
            total,
            page_index,
            page_size,
        ),
        forall|k: int|
            0 <= k < r@.len() ==> r@[k] == window_lo(total, page_index, page_size) + 1 + k,
{
    let start: u64 = page_index * page_size;
    let mut r: Vec<i64> = Vec::new();
    if start >= total {
        return r;
    }
    let end: u64 = if start + page_size > total {
        total
    } else {
        start + page_size
    };
    let count: u64 = end - start;
    let mut k: u64 = 0;
    while k < count
        invariant
            start < total <= i64::MAX,
            count == end - start,
            end <= total,
            0 <= k <= count,
            r@.len() == k,
            forall|j: int| 0 <= j < r@.len() ==> r@[j] == start + 1 + j,
        decreases count - k,
    {
        r.push((start + 1 + k) as i64);
        k = k + 1;
    }
    r
}

/// Picks the 1-based numbers of the stored pages that overlap the
/// ascending ranks the request covers, in ascending order.
pub fn pages_for_window(total: u64, page_index: u64, page_size: u64, desc: bool) -> (r: Vec<u64>)
    requires
        total <= u64::MAX - FIXED_PAGE_SIZE,
        (page_index as int) * (page_size as int) + (page_size as int) <= u64::MAX,
    ensures
        ({
            let lo = covered_lo(total, page_index, page_size, desc);
            let hi = covered_hi(total, page_index, page_size, desc);
            if lo >= hi {
                r@.len() == 0
            } else {
                &&& r@.len() == last_page_spec(hi) - first_page_spec(lo) + 1
                &&& forall|k: int| 0 <= k < r@.len() ==> r@[k] == first_page_spec(lo) + k
            }
        }),
{
    let wlo: u64 = if page_index * page_size > total {
        total
    } else {
        page_index * page_size
    };
    let whi: u64 = if page_index * page_size + page_size > total {
        total
    } else {
        page_index * page_size + page_size
    };
    let lo: u64 = if desc {
        total - whi
    } else {
        wlo
    };
    let hi: u64 = if desc {
        total - wlo
    } else {
        whi
    };
    let mut r: Vec<u64> = Vec::new();
    if lo >= hi {
        return r;
    }
    let first: u64 = lo / FIXED_PAGE_SIZE + 1;
    let last: u64 = (hi + FIXED_PAGE_SIZE - 1) / FIXED_PAGE_SIZE;
    let count: u64 = last - first + 1;
    let mut k: u64 = 0;
    while k < count
        invariant
            count == last - first + 1,
            first + count <= u64::MAX,
            0 <= k <= count,
            r@.len() == k,
            forall|j: int| 0 <= j < r@.len() ==> r@[j] == first + j,
        decreases count - k,
    {
        r.push(first + k);
        k = k + 1;
    }
    r
}

proof fn lemma_concat_take_extend(pages: Seq<Seq<i64>>, i: int)
    requires
        0 <= i < pages.len(),
    ensures
        concat_ids(pages.take(i + 1)) == concat_ids(pages.take(i)) + pages[i],
{
    assert(pages.take(i + 1).drop_last() =~= pages.take(i));
    assert(pages.take(i + 1).last() == pages[i]);
}

/// Concatenates fetched index pages in the order given.
pub fn concat_pages(pages: &Vec<Vec<i64>>) -> (r: Vec<i64>)
    ensures
        r@ == concat_ids(pages_views(pages@)),
{
    let mut r: Vec<i64> = Vec::new();
    let mut i: usize = 0;
    let n = pages.len();
    while i < n
        invariant
            n == pages@.len(),
            0 <= i <= n,
            r@ == concat_ids(pages_views(pages@).take(i as int)),
        decreases n - i,
    {
        let mut j: usize = 0;
        let page = &pages[i];
        let m = page.len();
        while j < m
            invariant
                m == page@.len(),
                0 <= j <= m,
                r@ == concat_ids(pages_views(pages@).take(i as int)) + page@.take(j as int),
            decreases m - j,
        {
            r.push(page[j]);
            proof {
                assert(page@.take(j as int + 1) =~= page@.take(j as int).push(page@[j as int]));
                assert(r@ =~= concat_ids(pages_views(pages@).take(i as int)) + page@.take(
                    j as int + 1,
                ));
            }
            j = j + 1;
        }
        proof {
            assert(page@.take(m as int) =~= page@);
            assert(pages_views(pages@)[i as int] == page@);
            lemma_concat_take_extend(pages_views(pages@), i as int);
        }
        i = i + 1;
    }
    proof {
        assert(pages_views(pages@).take(n as int) =~= pages_views(pages@));
    }
    r
}

/// How a sorted request's result relates to the concatenation `c` of the
/// fetched pages: the requested slice of `c` for an ascending request; for
/// a descending one, `c` reversed, the skip correction applied, and at
/// most `page_size` ids kept.
pub open spec fn sorted_resolution(
    total: u64,
    page_index: u64,
    page_size: u64,
    desc: bool,
    c: Seq<i64>,
    r: Seq<i64>,
) -> bool {
    let wlen = window_hi(total, page_index, page_size) - window_lo(total, page_index, page_size);
    if desc {
        let skip = desc_skip(total, page_index);
        let avail = if c.len() - skip >= 0 {
            c.len() - skip
        } else {
            0
        };
        let len = if page_size as int <= avail {
            page_size as int
        } else {
            avail
        };
        &&& r.len() == len
        &&& forall|k: int| 0 <= k < r.len() ==> r[k] == c[c.len() - 1 - skip - k]
    } else {
        let off = window_lo(total, page_index, page_size) % (FIXED_PAGE_SIZE as int);
        let avail = if c.len() - off >= 0 {
            c.len() - off
        } else {
            0
        };
        let len = if wlen <= avail {
            wlen
        } else {
            avail
        };
        &&& r.len() == len
        &&& forall|k: int| 0 <= k < r.len() ==> r[k] == c[off + k]
    }
}

/// The fetched pages hold the fixed-size chunks of `all`, starting at
/// stored page `first`.
pub open spec fn pages_hold_chunks(all: Seq<i64>, pages: Seq<Seq<i64>>, first: int) -> bool {
    forall|j: int| 0 <= j < pages.len() ==> #[trigger] pages[j] == chunk_page(all, first + j)
}

proof fn lemma_chunks_range_subrange(all: Seq<i64>, first: int, last: int)
    requires
        1 <= first <= last + 1,
        (first - 1) * (FIXED_PAGE_SIZE as int) <= all.len(),
        first <= last ==> (last - 1) * (FIXED_PAGE_SIZE as int) <= all.len(),
    ensures
        chunks_range(all, first, last) == all.subrange(
            (first - 1) * (FIXED_PAGE_SIZE as int),
            if last * (FIXED_PAGE_SIZE as int) > all.len() {
                all.len() as int
            } else {
                last * (FIXED_PAGE_SIZE as int)
            },
        ),
    decreases last - first + 1,
{
    let p = FIXED_PAGE_SIZE as int;
    if first > last {
        assert(chunks_range(all, first, last) =~= all.subrange(
            (first - 1) * p,
            if last * p > all.len() {
                all.len() as int
            } else {
                last * p
            },
        ));
    } else {
        lemma_chunks_range_subrange(all, first, last - 1);
        let mid = if (last - 1) * p > all.len() {
            all.len() as int
        } else {
            (last - 1) * p
        };
        let hi = if last * p > all.len() {
            all.len() as int
        } else {
            last * p
        };
        assert(mid == (last - 1) * p);
        assert(all.subrange((first - 1) * p, mid) + all.subrange(mid, hi) =~= all.subrange(
            (first - 1) * p,
            hi,
        ));
    }
}

proof fn lemma_concat_of_chunks(all: Seq<i64>, pages: Seq<Seq<i64>>, first: int)
    requires
        pages_hold_chunks(all, pages, first),
    ensures
        concat_ids(pages) == chunks_range(all, first, first + pages.len() - 1),
    decreases pages.len(),
{
    if pages.len() > 0 {
        assert(pages_hold_chunks(all, pages.drop_last(), first));
        lemma_concat_of_chunks(all, pages.drop_last(), first);
        assert(pages.last() == chunk_page(all, first + pages.len() - 1));
    }
}

/// Ascending resolution is exact: when the fetched pages are the stored
/// chunks that `pages_for_window` picks out of the full ascending id
/// sequence, the resolved ids are precisely the requested window of that
/// sequence.
pub proof fn lemma_ascending_resolution(
    all: Seq<i64>,
    total: u64,
    page_index: u64,
    page_size: u64,
    pages: Seq<Seq<i64>>,
    r: Seq<i64>,
)
    requires
        all.len() == total,
        total <= u64::MAX - FIXED_PAGE_SIZE,
        (page_index as int) * (page_size as int) + (page_size as int) <= u64::MAX,
        (page_index as int) * (page_size as int) < total,
        pages.len() == last_page_spec(covered_hi(total, page_index, page_size, false))
            - first_page_spec(covered_lo(total, page_index, page_size, false)) + 1,
        pages_hold_chunks(
            all,
            pages,
            first_page_spec(covered_lo(total, page_index, page_size, false)),
        ),
        sorted_resolution(total, page_index, page_size, false, concat_ids(pages), r),
    ensures
        r == all.subrange(
            window_lo(total, page_index, page_size),
            window_hi(total, page_index, page_size),
        ),
{
    let p = FIXED_PAGE_SIZE as int;
    let wlo = window_lo(total, page_index, page_size);
    let whi = window_hi(total, page_index, page_size);
    let first = first_page_spec(wlo);
    let last = last_page_spec(whi);
    lemma_concat_of_chunks(all, pages, first);
    lemma_chunks_range_subrange(all, first, last);
    let c = concat_ids(pages);
    let hi = if last * p > all.len() {
        all.len() as int
    } else {
        last * p
    };
    assert((first - 1) * p == p * (wlo / p));
    assert(wlo == p * (wlo / p) + wlo % p);
    assert(hi >= whi);
    assert(c.len() == hi - (first - 1) * p);
    assert(forall|k: int| 0 <= k < c.len() ==> c[k] == all[(first - 1) * p + k]);
    assert(r =~= all.subrange(wlo, whi));
}

/// Descending resolution is exact where the skip correction is sound: for
/// the first page always, and for any later page when the requested page
/// size is a whole number of stored pages and the id count does not fall
/// on a stored-page boundary. The resolved ids are then precisely the
/// requested window of the reversed ascending sequence: descending,
/// contiguous, nothing duplicated and nothing dropped between consecutive
/// pages.
pub proof fn lemma_descending_resolution(
    all: Seq<i64>,
    total: u64,
    page_index: u64,
    page_size: u64,
    pages: Seq<Seq<i64>>,
    r: Seq<i64>,
)
    requires
        all.len() == total,
        total <= u64::MAX - FIXED_PAGE_SIZE,
        page_size >= 1,
        (page_index as int) * (page_size as int) + (page_size as int) <= u64::MAX,
        (page_index as int) * (page_size as int) < total,
        page_index == 0 || (total % FIXED_PAGE_SIZE != 0 && page_size % FIXED_PAGE_SIZE == 0),
        pages.len() == last_page_spec(covered_hi(total, page_index, page_size, true))
            - first_page_spec(covered_lo(total, page_index, page_size, true)) + 1,
        pages_hold_chunks(
            all,
            pages,
            first_page_spec(covered_lo(total, page_index, page_size, true)),
        ),
        sorted_resolution(total, page_index, page_size, true, concat_ids(pages), r),
    ensures
        r.len() == window_hi(total, page_index, page_size) - window_lo(
            total,
            page_index,
            page_size,
        ),
        forall|k: int|
            0 <= k < r.len() ==> r[k] == all[total - 1 - window_lo(total, page_index, page_size)
                - k],
{
    let p = FIXED_PAGE_SIZE as int;
    let wlo = window_lo(total, page_index, page_size);
    let whi = window_hi(total, page_index, page_size);
    let alo = covered_lo(total, page_index, page_size, true);
    let ahi = covered_hi(total, page_index, page_size, true);
    let first = first_page_spec(alo);
    let last = last_page_spec(ahi);
    lemma_concat_of_chunks(all, pages, first);
    lemma_chunks_range_subrange(all, first, last);
    let c = concat_ids(pages);
    let hi = if last * p > all.len() {
        all.len() as int
    } else {
        last * p
    };
    let skip = desc_skip(total, page_index);
    assert((first - 1) * p == p * (alo / p));
    assert(alo == p * (alo / p) + alo % p);
    assert(c.len() == hi - (first - 1) * p);
    assert(forall|k: int| 0 <= k < c.len() ==> c[k] == all[(first - 1) * p + k]);
    if page_index == 0 {
        assert(ahi == total);
        assert(last * p >= ahi) by {
            assert(ahi <= p * ((ahi + p - 1) / p));
        };
        assert(hi == total);
        assert(hi - skip == ahi);
    } else {
        let q = (total as int) / p;
        let rem = (total as int) % p;
        let w = (page_index as int) * (page_size as int);
        let m = (page_size as int) / p;
        let wm = (page_index as int) * m;
        assert(total == p * q + rem);
        assert(rem != 0);
        assert(page_size == p * m);
        assert(w == p * wm) by (nonlinear_arith)
            requires
                page_size == p * m,
                w == (page_index as int) * (page_size as int),
                wm == (page_index as int) * m,
        ;
        assert(wm >= 1) by (nonlinear_arith)
            requires
                page_index >= 1,
                m >= 1,
                wm == (page_index as int) * m,
        ;
        assert(wlo == w);
        assert(ahi == total - w);
        assert(ahi == p * (q - wm) + rem);
        assert(ahi / p == q - wm && ahi % p == rem);
        assert(last == (ahi + p - 1) / p);
        assert(last * p == ahi + (p - rem)) by {
            assert(ahi + p - 1 == p * (q - wm + 1) + rem - 1);
            assert((ahi + p - 1) / p == q - wm + 1);
        };
        assert(last * p <= total);
        assert(hi == last * p);
        assert(hi - skip == ahi);
    }
    assert(skip + (whi - wlo) <= c.len());
    assert(forall|k: int|
        0 <= k < whi - wlo ==> #[trigger] c[c.len() - 1 - skip - k] == all[total - 1 - wlo - k]);
    assert(r.len() == whi - wlo);
}

/// Resolves a sorted request from the fetched index pages: concatenates
/// them, then slices ascending, or reverses, skips and truncates
/// descending.
pub fn resolve_sorted(
    total: u64,
    page_index: u64,
    page_size: u64,
    desc: bool,
    fetched: &Vec<Vec<i64>>,
) -> (r: Vec<i64>)
    requires
        (page_index as int) * (page_size as int) + (page_size as int) <= u64::MAX,
    ensures
        sorted_resolution(total, page_index, page_size, desc, concat_ids(pages_views(fetched@)), r@),
{
    let c = concat_pages(fetched);
    let n = c.len();
    let mut r: Vec<i64> = Vec::new();
    if desc {
        let skip: u64 = if page_index == 0 {
            0
        } else {
            FIXED_PAGE_SIZE - (total % FIXED_PAGE_SIZE)
        };
        if skip >= n as u64 {
            return r;
        }
        let avail: u64 = n as u64 - skip;
        let len: u64 = if page_size <= avail {
            page_size
        } else {
            avail
        };
        let mut k: u64 = 0;
        while k < len
            invariant
                skip + len <= n == c@.len(),
                0 <= k <= len,
                r@.len() == k,
                forall|j: int| 0 <= j < r@.len() ==> r@[j] == c@[n - 1 - skip - j],
            decreases len - k,
        {
            r.push(c[(n as u64 - 1 - skip - k) as usize]);
            k = k + 1;
        }
        r
    } else {
        let start: u64 = page_index * page_size;
        let wlo: u64 = if start > total {
            total
        } else {
            start
        };
        let whi: u64 = if start + page_size > total {
            total
        } else {
            start + page_size
        };
        let wlen: u64 = whi - wlo;
        let off: u64 = wlo % FIXED_PAGE_SIZE;
        if off >= n as u64 {
            return r;
        }
        let avail: u64 = n as u64 - off;
        let len: u64 = if wlen <= avail {
            wlen
        } else {
            avail
        };
        let mut k: u64 = 0;
        while k < len
            invariant
                off + len <= n == c@.len(),
                0 <= k <= len,
                r@.len() == k,
                forall|j: int| 0 <= j < r@.len() ==> r@[j] == c@[off + j],
            decreases len - k,
        {
            r.push(c[(off + k) as usize]);
            k = k + 1;
        }
        r
    }
}

/// The first fetched artifact carrying the given id, if any.
pub open spec fn find_fetched(fetched: Seq<(i64, Vec<u8>)>, id: i64) -> Option<Seq<u8>>
    decreases fetched.len(),
{
    if fetched.len() == 0 {
        None
    } else if fetched[0].0 == id {
        Some(fetched[0].1@)
    } else {
        find_fetched(fetched.drop_first(), id)
    }
}

proof fn lemma_find_fetched_skip(fetched: Seq<(i64, Vec<u8>)>, id: i64, i: int)
    requires
        0 <= i <= fetched.len(),
        forall|j: int| 0 <= j < i ==> (#[trigger] fetched[j]).0 != id,
    ensures
        find_fetched(fetched, id) == find_fetched(fetched.skip(i), id),
    decreases i,
{
    if i > 0 {
        lemma_find_fetched_skip(fetched, id, i - 1);
        assert(fetched.skip(i - 1)[0] == fetched[i - 1]);
        assert(fetched.skip(i - 1).drop_first() =~= fetched.skip(i));
    } else {
        assert(fetched.skip(0) =~= fetched);
    }
}

fn find_artifact(fetched: &Vec<(i64, Vec<u8>)>, id: i64) -> (r: Option<Vec<u8>>)
    ensures
        match r {
            Some(v) => find_fetched(fetched@, id) == Some(v@),
            None => find_fetched(fetched@, id) is None,
        },
{
    let mut i: usize = 0;
    let n = fetched.len();
    while i < n
        invariant
            n == fetched@.len(),
            0 <= i <= n,
            forall|j: int| 0 <= j < i ==> (#[trigger] fetched@[j]).0 != id,
        decreases n - i,
    {
        if fetched[i].0 == id {
            proof {
                lemma_find_fetched_skip(fetched@, id, i as int);
                assert(fetched@.skip(i as int)[0] == fetched@[i as int]);
            }
            return Some(fetched[i].1.clone());
        }
        i = i + 1;
    }
    proof {
        lemma_find_fetched_skip(fetched@, id, n as int);
        assert(fetched@.skip(n as int) =~= Seq::<(i64, Vec<u8>)>::empty());
    }
    None
}

/// Reassembles per-id artifacts, fetched in any completion order, into
/// the order the ids were requested in. Fails if any requested id is
/// missing from the fetched set.
pub fn reassemble_by_id(ids: &Vec<i64>, fetched: &Vec<(i64, Vec<u8>)>) -> (r: Option<
    Vec<Vec<u8>>,
>)
    ensures
        match r {
            Some(out) => {
                &&& out@.len() == ids@.len()
                &&& forall|k: int|
                    0 <= k < out@.len() ==> Some((#[trigger] out@[k])@) == find_fetched(
                        fetched@,
                        ids@[k],
                    )
            },
            None => exists|k: int|
                0 <= k < ids@.len() && find_fetched(fetched@, #[trigger] ids@[k]) is None,
        },
{
    let mut out: Vec<Vec<u8>> = Vec::new();
    let mut i: usize = 0;
    let n = ids.len();
    while i < n
        invariant
            n == ids@.len(),
            0 <= i <= n,
            out@.len() == i,
            forall|k: int|
                0 <= k < i ==> Some((#[trigger] out@[k])@) == find_fetched(fetched@, ids@[k]),
        decreases n - i,
    {
        match find_artifact(fetched, ids[i]) {
            Some(v) => {
                out.push(v);
            },
            None => {
                return None;
            },
        }
        i = i + 1;
    }
    Some(out)
}

} // verus!
