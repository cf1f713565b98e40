use vstd::prelude::*;

verus! {

/// How many commit rows one fetch materializes.
pub const SLICE_SIZE: usize = 1200;

/// How much room the cached window must keep on each side of the selection
/// before a move forces a refetch.  Smaller than half a fetch window, so a
/// freshly fetched window always satisfies the selection it was issued for.
pub const SLICE_MARGIN: usize = 400;

/// One display-ready row of commit metadata.  Produced by a batched lookup
/// from a commit id; never mutated after creation.
#[derive(Clone, Debug)]
pub struct LogEntry {
    pub hash: String,
    pub time: String,
    pub author: String,
    pub msg: String,
}

/// A contiguous window of the logical commit log: `items[i]` holds the row
/// for global log index `index_offset + i`.  The window is replaced
/// wholesale, never patched in place.
pub struct ItemBatch {
    pub index_offset: usize,
    pub items: Vec<LogEntry>,
}

impl ItemBatch {
    /// The batch holds the row for global log index `g`.
    pub open spec fn covers(self, g: int) -> bool {
        self.index_offset <= g < self.index_offset + self.items@.len()
    }

    /// The row the batch holds for global log index `g`.
    pub open spec fn entry_at(self, g: int) -> LogEntry {
        self.items@[g - self.index_offset]
    }

    /// The start of the fetch window the policy centers on selection `idx`.
    pub open spec fn fetch_start(idx: int) -> int {
        if idx >= SLICE_SIZE / 2 {
            idx - SLICE_SIZE / 2
        } else {
            0
        }
    }

    /// The batch is stale for selection `idx` in a log whose largest index is
    /// `idx_max`: it misses the selection or keeps too little margin around
    /// it.  An empty batch is always stale.
    pub open spec fn spec_needs_data(self, idx: int, idx_max: int) -> bool {
        let want_min = if idx >= SLICE_MARGIN {
            idx - SLICE_MARGIN
        } else {
            0
        };
        let want_max = if idx + SLICE_MARGIN <= idx_max {
            idx + SLICE_MARGIN
        } else {
            idx_max
        };
        want_min < self.index_offset || want_max >= self.index_offset + self.items@.len()
    }

    pub fn empty() -> (r: ItemBatch)
        ensures
            r.index_offset == 0,
            r.items@.len() == 0,
    {
        ItemBatch { index_offset: 0, items: Vec::new() }
    }

    pub fn len(&self) -> (r: usize)
        ensures
            r == self.items@.len(),
    {
        self.items.len()
    }

    /// Decide whether the viewport around selection `idx` is still covered
    /// with enough margin, or a new fetch must be issued.
    pub fn needs_data(&self, idx: usize, idx_max: usize) -> (r: bool)
        ensures
            r == self.spec_needs_data(idx as int, idx_max as int),
    {
        let want_min: usize = if idx >= SLICE_MARGIN {
            idx - SLICE_MARGIN
        } else {
            0
        };
        let want_max: usize = if idx >= idx_max {
            idx_max
        } else if idx_max - idx >= SLICE_MARGIN {
            idx + SLICE_MARGIN
        } else {
            idx_max
        };
        if want_min < self.index_offset {
            true
        } else if self.index_offset > usize::MAX - self.items.len() {
            false
        } else {
            want_max >= self.index_offset + self.items.len()
        }
    }

    /// Atomically replace the whole window.  Callers hand in the rows fetched
    /// for global indexes `offset`, `offset + 1`, ... in order.
    pub fn set_items(&mut self, offset: usize, items: Vec<LogEntry>)
        ensures
            final(self).index_offset == offset,
            final(self).items@ == items@,
    {
        self.items = items;
        self.index_offset = offset;
    }

    /// Fetch the row cached for global log index `g`, if the window holds it.
    pub fn get_global(&self, g: usize) -> (r: Option<&LogEntry>)
        ensures
            self.covers(g as int) ==> r == Some(&self.entry_at(g as int)),
            !self.covers(g as int) ==> r is None,
    {
        if g >= self.index_offset && g - self.index_offset < self.items.len() {
            Some(&self.items[g - self.index_offset])
        } else {
            None
        }
    }
}

/// Law: a batch is contiguous and gap-free.  It covers exactly the interval
/// of global indexes `[index_offset, index_offset + items.len())`, and within
/// it the row for global index `index_offset + i` is `items[i]`.
pub proof fn lemma_batch_contiguous(b: ItemBatch)
    ensures
        forall|g: int|
            b.covers(g) <==> b.index_offset <= g < b.index_offset + b.items@.len(),
        forall|i: int|
            0 <= i < b.items@.len() ==> #[trigger] b.entry_at(b.index_offset + i) == b.items@[i],
{
}

/// Law: an empty batch is always stale, whatever the selection.
pub proof fn lemma_empty_needs_data(b: ItemBatch, idx: int, idx_max: int)
    requires
        0 <= idx <= idx_max,
        b.items@.len() == 0,
    ensures
        b.spec_needs_data(idx, idx_max),
{
}

/// Law: after a stale window is replaced by the fetch the policy issues for
/// selection `s` — starting half a fetch window before `s` (clamped at zero)
/// and running to the end of that window or of the discovered log, whichever
/// comes first — the cache covers `s` and no longer reports stale for it.
///
/// A window that merely contains `s` is not enough: with `s` at its last row
/// and `smax` far beyond, the margin below `s` is missing and the cache
/// rightly still reports stale.
pub proof fn lemma_fresh_window_satisfies(b: ItemBatch, s: int, smax: int)
    requires
        0 <= s <= smax,
        b.index_offset == ItemBatch::fetch_start(s),
        b.index_offset + b.items@.len() == if b.index_offset + SLICE_SIZE <= smax + 1 {
            b.index_offset + SLICE_SIZE as int
        } else {
            smax + 1
        },
    ensures
        b.covers(s),
        !b.spec_needs_data(s, smax),
{
}

} // verus!
