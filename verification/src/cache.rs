//! Size-bounded cache of decoded page images.
//!
//! The cache maps page indices to decoded images. Entries are created
//! on demand and removed only by eviction or an explicit clear. Eviction
//! is distance-based: when the cache exceeds `MAX_CACHED_PAGES` entries,
//! the pages farthest from a given center page are dropped until the
//! bound is met, so every retained page is at least as close to the
//! center as every evicted one. Ties between equal distances are
//! resolved arbitrarily.

use vstd::prelude::*;

verus! {

/// Maximum number of decoded page images kept in a cache.
pub const MAX_CACHED_PAGES: usize = 20;

/// A decoded page image as the layout engine sees it: the pixel size in
/// the unrotated orientation and an opaque handle under which the host
/// keeps the actual pixel data.
#[derive(Clone, Copy, Debug, PartialEq, Eq, Structural)]
pub struct PageImage {
    pub handle: u64,
    pub width: u32,
    pub height: u32,
}

/// One cache slot: a page index and its decoded image.
#[derive(Clone, Copy, Debug)]
pub struct CacheEntry {
    pub page: usize,
    pub image: PageImage,
}

/// The bitmap cache itself. `cache_wf` says the page indices are unique,
/// so the entry list represents a mapping.
pub struct BitmapCache {
    pub entries: Vec<CacheEntry>,
}

pub open spec fn cache_wf(c: BitmapCache) -> bool {
    forall|i: int, j: int|
        0 <= i < j < c.entries@.len() ==> (#[trigger] c.entries@[i]).page != (
        #[trigger] c.entries@[j]).page
}

pub open spec fn cache_contains(c: BitmapCache, page: int) -> bool {
    exists|i: int| 0 <= i < c.entries@.len() && (#[trigger] c.entries@[i]).page == page
}

pub open spec fn cache_index_of(c: BitmapCache, page: int) -> int {
    choose|i: int| 0 <= i < c.entries@.len() && (#[trigger] c.entries@[i]).page == page
}

/// The image cached for `page`, meaningful when `cache_contains` holds.
pub open spec fn cache_image_of(c: BitmapCache, page: int) -> PageImage {
    c.entries@[cache_index_of(c, page)].image
}

/// Distance between a page index and the eviction center.
pub open spec fn spec_page_dist(page: int, center: int) -> int {
    if page >= center { page - center } else { center - page }
}

/// With unique pages, the entry at index `k` is the one the mapping
/// assigns to its page.
pub proof fn lemma_image_at(c: BitmapCache, k: int)
    requires
        cache_wf(c),
        0 <= k < c.entries@.len(),
    ensures
        cache_contains(c, c.entries@[k].page as int),
        cache_index_of(c, c.entries@[k].page as int) == k,
        cache_image_of(c, c.entries@[k].page as int) == c.entries@[k].image,
{
    let p = c.entries@[k].page as int;
    assert(cache_contains(c, p));
    let i = cache_index_of(c, p);
    if i != k {
        if i < k {
            assert(c.entries@[i].page != c.entries@[k].page);
        } else {
            assert(c.entries@[k].page != c.entries@[i].page);
        }
    }
}

impl BitmapCache {
    /// An empty cache.
    pub fn new() -> (c: BitmapCache)
        ensures
            c.entries@.len() == 0,
            cache_wf(c),
    {
        BitmapCache { entries: Vec::new() }
    }

    /// Number of cached images.
    pub fn len(&self) -> (n: usize)
        ensures
            n == self.entries@.len(),
    {
        self.entries.len()
    }

    /// Look up the cached image for a page, if any.
    pub fn get(&self, page: usize) -> (r: Option<PageImage>)
        requires
            cache_wf(*self),
        ensures
            cache_contains(*self, page as int) ==> r == Some(cache_image_of(*self, page as int)),
            !cache_contains(*self, page as int) ==> r is None,
    {
        let n = self.entries.len();
        let mut k: usize = 0;
        while k < n
            invariant
                cache_wf(*self),
                n == self.entries@.len(),
                k <= n,
                forall|j: int| 0 <= j < k ==> (#[trigger] self.entries@[j]).page != page,
            decreases n - k,
        {
            if self.entries[k].page == page {
                proof {
                    lemma_image_at(*self, k as int);
                }
                return Some(self.entries[k].image);
            }
            k = k + 1;
        }
        None
    }

    /// Store the image decoded for a page, replacing any previous entry
    /// for the same page and leaving every other page's entry untouched.
    pub fn insert(&mut self, page: usize, image: PageImage)
        requires
            cache_wf(*old(self)),
        ensures
            cache_wf(*final(self)),
            cache_contains(*final(self), page as int),
            cache_image_of(*final(self), page as int) == image,
            forall|q: int|
                q != page ==> (cache_contains(*final(self), q) <==> cache_contains(*old(self), q)),
            forall|q: int|
                q != page && cache_contains(*old(self), q) ==> cache_image_of(*final(self), q)
                    == cache_image_of(*old(self), q),
            final(self).entries@.len() == old(self).entries@.len() + (
            if cache_contains(*old(self), page as int) { 0int } else { 1int }),
    {
        let n = self.entries.len();
        let mut k: usize = 0;
        while k < n
            invariant
                cache_wf(*self),
                *self == *old(self),
                n == self.entries@.len(),
                k <= n,
                forall|j: int| 0 <= j < k ==> (#[trigger] self.entries@[j]).page != page,
            decreases n - k,
        {
            if self.entries[k].page == page {
                proof {
                    lemma_image_at(*self, k as int);
                }
                self.entries[k] = CacheEntry { page, image };
                proof {
                    lemma_insert_replace_post(*old(self), *self, k as int, page as int, image);
                }
                return;
            }
            k = k + 1;
        }
        self.entries.push(CacheEntry { page, image });
        proof {
            lemma_insert_push_post(*old(self), *self, page as int, image);
        }
    }

    /// Drop every cached image.
    pub fn clear(&mut self)
        ensures
            final(self).entries@.len() == 0,
            cache_wf(*final(self)),
    {
        self.entries = Vec::new();
    }

    /// Bound the cache by distance from a center page: if more than
    /// `MAX_CACHED_PAGES` images are cached, the pages farthest from
    /// `center` are evicted until exactly `MAX_CACHED_PAGES` remain.
    /// Every retained page's image is unchanged, and no evicted page
    /// was closer to the center than a retained one.
    pub fn evict_distant(&mut self, center: usize)
        requires
            cache_wf(*old(self)),
        ensures
            cache_wf(*final(self)),
            final(self).entries@.len() == if old(self).entries@.len() <= MAX_CACHED_PAGES {
                old(self).entries@.len() as int
            } else {
                MAX_CACHED_PAGES as int
            },
            old(self).entries@.len() <= MAX_CACHED_PAGES ==> final(self).entries@ == old(
                self).entries@,
            forall|q: int|
                cache_contains(*final(self), q) ==> cache_contains(*old(self), q)
                    && cache_image_of(*final(self), q) == cache_image_of(*old(self), q),
            forall|p: int, q: int|
                cache_contains(*final(self), p) && cache_contains(*old(self), q)
                    && !cache_contains(*final(self), q) ==> spec_page_dist(p, center as int)
                    <= spec_page_dist(q, center as int),
    {
        if self.entries.len() <= MAX_CACHED_PAGES {
            return;
        }
        while self.entries.len() > MAX_CACHED_PAGES
            invariant
                cache_wf(*self),
                MAX_CACHED_PAGES <= self.entries@.len() <= old(self).entries@.len(),
                cache_wf(*old(self)),
                forall|q: int|
                    cache_contains(*self, q) ==> cache_contains(*old(self), q)
                        && cache_image_of(*self, q) == cache_image_of(*old(self), q),
                forall|p: int, q: int|
                    cache_contains(*self, p) && cache_contains(*old(self), q)
                        && !cache_contains(*self, q) ==> spec_page_dist(p, center as int)
                        <= spec_page_dist(q, center as int),
            decreases self.entries@.len(),
        {
            let n = self.entries.len();
            // Find the entry farthest from the center.
            let mut far: usize = 0;
            let mut far_dist: usize = page_dist(self.entries[0].page, center);
            let mut k: usize = 1;
            while k < n
                invariant
                    n == self.entries@.len(),
                    0 < n,
                    1 <= k <= n,
                    far < k,
                    far_dist == spec_page_dist(self.entries@[far as int].page as int, center as int),
                    forall|j: int|
                        0 <= j < k ==> spec_page_dist((#[trigger] self.entries@[j]).page as int,
                            center as int) <= far_dist,
                decreases n - k,
            {
                let d = page_dist(self.entries[k].page, center);
                if d > far_dist {
                    far = k;
                    far_dist = d;
                }
                k = k + 1;
            }
            let ghost before = *self;
            let _ = self.entries.remove(far);
            proof {
                lemma_evict_step(before, *self, far as int, center as int);
                // Chain the step facts with the outer-loop invariant.
                assert forall|q: int|
                    cache_contains(*self, q) implies cache_contains(*old(self), q)
                        && cache_image_of(*self, q) == cache_image_of(*old(self), q) by {
                    assert(cache_contains(before, q));
                }
                assert forall|p: int, q: int|
                    cache_contains(*self, p) && cache_contains(*old(self), q)
                        && !cache_contains(*self, q) implies spec_page_dist(p, center as int)
                        <= spec_page_dist(q, center as int) by {
                    assert(cache_contains(before, p));
                    if cache_contains(before, q) {
                        // q was evicted in this step, so it is the farthest entry.
                        assert(q == before.entries@[far as int].page as int);
                    }
                }
            }
        }
    }
}

/// Distance between a page index and the eviction center page.
pub fn page_dist(page: usize, center: usize) -> (d: usize)
    ensures
        d == spec_page_dist(page as int, center as int),
{
    if page >= center {
        page - center
    } else {
        center - page
    }
}

/// What one eviction step does: removing the entry at `far`, which is
/// at maximal distance from the center, keeps every other entry and
/// removes exactly that page.
proof fn lemma_evict_step(before: BitmapCache, after: BitmapCache, far: int, center: int)
    requires
        cache_wf(before),
        0 <= far < before.entries@.len(),
        after.entries@ == before.entries@.remove(far),
        forall|j: int|
            0 <= j < before.entries@.len() ==> spec_page_dist(
                (#[trigger] before.entries@[j]).page as int, center) <= spec_page_dist(
                before.entries@[far].page as int, center),
    ensures
        cache_wf(after),
        after.entries@.len() == before.entries@.len() - 1,
        forall|q: int|
            cache_contains(after, q) ==> cache_contains(before, q) && cache_image_of(after, q)
                == cache_image_of(before, q),
        forall|q: int|
            cache_contains(before, q) && !cache_contains(after, q) ==> q == before.entries@[
                far].page as int,
        forall|p: int|
            cache_contains(after, p) ==> spec_page_dist(p, center) <= spec_page_dist(
                before.entries@[far].page as int, center),
{
    let bs = before.entries@;
    let as_ = after.entries@;
    // Index correspondence between the sequences before and after removal.
    assert forall|j: int| 0 <= j < as_.len() implies as_[j] == (
        if j < far { bs[j] } else { bs[j + 1] }) by {}
    assert forall|i: int, j: int| 0 <= i < j < as_.len() implies (#[trigger] as_[i]).page != (
        #[trigger] as_[j]).page by {
        let bi = if i < far { i } else { i + 1 };
        let bj = if j < far { j } else { j + 1 };
        assert(bs[bi].page != bs[bj].page);
    }
    assert forall|q: int| cache_contains(after, q) implies cache_contains(before, q)
        && cache_image_of(after, q) == cache_image_of(before, q) by {
        let i = cache_index_of(after, q);
        lemma_image_at(after, i);
        let bi = if i < far { i } else { i + 1 };
        lemma_image_at(before, bi);
    }
    assert forall|q: int| cache_contains(before, q) && !cache_contains(after, q) implies q == bs[
        far].page as int by {
        let i = cache_index_of(before, q);
        assert(0 <= i < bs.len() && bs[i].page == q);
        if i != far {
            let ai = if i < far { i } else { i - 1 };
            assert(as_[ai].page == q);
            assert(cache_contains(after, q));
        }
    }
    assert forall|p: int| cache_contains(after, p) implies spec_page_dist(p, center)
        <= spec_page_dist(bs[far].page as int, center) by {
        let i = cache_index_of(after, p);
        lemma_image_at(after, i);
        let bi = if i < far { i } else { i + 1 };
        assert(bs[bi].page == p);
    }
}

/// Replacing the entry at `k`, whose page is `page`, rebinds that page
/// and leaves every other binding unchanged.
proof fn lemma_insert_replace_post(
    before: BitmapCache,
    after: BitmapCache,
    k: int,
    page: int,
    image: PageImage,
)
    requires
        cache_wf(before),
        0 <= k < before.entries@.len(),
        before.entries@[k].page == page,
        after.entries@.len() == before.entries@.len(),
        after.entries@[k].page == page,
        after.entries@[k].image == image,
        forall|j: int|
            0 <= j < before.entries@.len() && j != k ==> after.entries@[j] == before.entries@[j],
    ensures
        cache_wf(after),
        cache_contains(after, page),
        cache_image_of(after, page) == image,
        forall|q: int| q != page ==> (cache_contains(after, q) <==> cache_contains(before, q)),
        forall|q: int|
            q != page && cache_contains(before, q) ==> cache_image_of(after, q) == cache_image_of(
                before, q),
        cache_contains(before, page),
{
    assert forall|i: int, j: int|
        0 <= i < j < after.entries@.len() implies (#[trigger] after.entries@[i]).page != (
        #[trigger] after.entries@[j]).page by {
        assert(before.entries@[i].page != before.entries@[j].page);
        assert(after.entries@[i].page == before.entries@[i].page);
        assert(after.entries@[j].page == before.entries@[j].page);
    }
    lemma_image_at(after, k);
    lemma_image_at(before, k);
    assert forall|q: int| q != page implies (cache_contains(after, q) <==> cache_contains(
        before, q)) by {
        if cache_contains(before, q) {
            let i = cache_index_of(before, q);
            assert(i != k);
            assert(after.entries@[i].page == q);
        }
        if cache_contains(after, q) {
            let i = cache_index_of(after, q);
            assert(i != k);
            assert(before.entries@[i].page == q);
        }
    }
    assert forall|q: int| q != page && cache_contains(before, q) implies cache_image_of(after, q)
        == cache_image_of(before, q) by {
        let i = cache_index_of(before, q);
        lemma_image_at(before, i);
        assert(i != k);
        assert(after.entries@[i].page == q && after.entries@[i].image == before.entries@[i].image);
        lemma_image_at(after, i);
    }
}

/// Appending an entry for a page not yet present adds that binding and
/// leaves every other binding unchanged.
proof fn lemma_insert_push_post(before: BitmapCache, after: BitmapCache, page: int, image: PageImage)
    requires
        cache_wf(before),
        !cache_contains(before, page),
        after.entries@.len() == before.entries@.len() + 1,
        after.entries@[before.entries@.len() as int].page == page,
        after.entries@[before.entries@.len() as int].image == image,
        forall|j: int| 0 <= j < before.entries@.len() ==> after.entries@[j] == before.entries@[j],
    ensures
        cache_wf(after),
        cache_contains(after, page),
        cache_image_of(after, page) == image,
        forall|q: int| q != page ==> (cache_contains(after, q) <==> cache_contains(before, q)),
        forall|q: int|
            q != page && cache_contains(before, q) ==> cache_image_of(after, q) == cache_image_of(
                before, q),
{
    let n = before.entries@.len() as int;
    assert forall|i: int, j: int|
        0 <= i < j < after.entries@.len() implies (#[trigger] after.entries@[i]).page != (
        #[trigger] after.entries@[j]).page by {
        if j < n {
            assert(before.entries@[i].page != before.entries@[j].page);
        } else {
            // The new entry's page was absent before.
            if after.entries@[i].page == page {
                assert(before.entries@[i].page == page);
                assert(cache_contains(before, page));
            }
        }
    }
    lemma_image_at(after, n);
    assert forall|q: int| q != page implies (cache_contains(after, q) <==> cache_contains(
        before, q)) by {
        if cache_contains(before, q) {
            let i = cache_index_of(before, q);
            assert(after.entries@[i].page == q);
        }
        if cache_contains(after, q) {
            let i = cache_index_of(after, q);
            assert(i < n);
            assert(before.entries@[i].page == q);
        }
    }
    assert forall|q: int| q != page && cache_contains(before, q) implies cache_image_of(after, q)
        == cache_image_of(before, q) by {
        let i = cache_index_of(before, q);
        lemma_image_at(before, i);
        assert(after.entries@[i].page == q && after.entries@[i].image == before.entries@[i].image);
        lemma_image_at(after, i);
    }
}

} // verus!
