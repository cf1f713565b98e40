use vstd::prelude::*;
use crate::strutil::views_of_strings;

verus! {

/// The state of the background commit walk, as the UI thread sees it: the
/// commit ids discovered so far, newest first, whether a walk is still in
/// flight, and which walk generation is current.  The walk itself runs
/// outside; it reports its findings through `publish` and `finish`, tagged
/// with the generation it was started for, and a report from a superseded
/// generation is a harmless no-op.
pub struct AsyncLog {
    commits: Vec<String>,
    pending: bool,
    generation: u64,
}

impl AsyncLog {
    /// The commit ids discovered so far, in discovery order.
    pub closed spec fn commits(self) -> Seq<Seq<char>> {
        views_of_strings(self.commits@)
    }

    /// A walk is still in flight.
    pub closed spec fn pending(self) -> bool {
        self.pending
    }

    /// The generation of the most recently started walk.
    pub closed spec fn generation(self) -> u64 {
        self.generation
    }

    pub fn new() -> (r: AsyncLog)
        ensures
            r.commits() == Seq::<Seq<char>>::empty(),
            !r.pending(),
            r.generation() == 0,
    {
        let r = AsyncLog { commits: Vec::new(), pending: false, generation: 0 };
        proof {
            assert(r.commits() =~~= Seq::<Seq<char>>::empty());
        }
        r
    }

    /// (Re)start discovery from scratch.  A fresh call supersedes any walk
    /// still in flight: the count resets and a new generation begins, so a
    /// late report from the old walk no longer matches and changes nothing.
    pub fn fetch(&mut self) -> (g: u64)
        requires
            old(self).generation() < u64::MAX,
        ensures
            final(self).commits() == Seq::<Seq<char>>::empty(),
            final(self).pending(),
            final(self).generation() == old(self).generation() + 1,
            g == final(self).generation(),
    {
        self.commits = Vec::new();
        self.pending = true;
        self.generation = self.generation + 1;
        proof {
            assert(self.commits() =~~= Seq::<Seq<char>>::empty());
        }
        self.generation
    }

    /// How many commit ids have been discovered so far.
    pub fn count(&self) -> (r: usize)
        ensures
            r == self.commits().len(),
    {
        self.commits.len()
    }

    pub fn is_pending(&self) -> (r: bool)
        ensures
            r == self.pending(),
    {
        self.pending
    }

    pub fn current_generation(&self) -> (g: u64)
        ensures
            g == self.generation(),
    {
        self.generation
    }

    /// Take in one batch of ids a walk discovered.  A batch from the current
    /// generation extends the sequence — the count never shrinks within one
    /// walk — and a batch from a superseded generation changes nothing.
    pub fn publish(&mut self, generation: u64, ids: Vec<String>)
        ensures
            generation == old(self).generation() ==> final(self).commits() == old(
                self,
            ).commits() + views_of_strings(ids@),
            generation != old(self).generation() ==> final(self).commits() == old(
                self,
            ).commits(),
            final(self).pending() == old(self).pending(),
            final(self).generation() == old(self).generation(),
    {
        if generation == self.generation {
            let ghost pre = self.commits@;
            let mut ids_in = ids;
            self.commits.append(&mut ids_in);
            proof {
                assert(self.commits() =~~= views_of_strings(pre) + views_of_strings(ids@));
            }
        }
    }

    /// Note that the walk of the given generation has finished.  A finish
    /// report from a superseded generation changes nothing.
    pub fn finish(&mut self, generation: u64)
        ensures
            final(self).commits() == old(self).commits(),
            final(self).generation() == old(self).generation(),
            generation == old(self).generation() ==> !final(self).pending(),
            generation != old(self).generation() ==> final(self).pending() == old(
                self,
            ).pending(),
    {
        if generation == self.generation {
            self.pending = false;
        }
    }

    /// Up to `size` commit ids starting at logical index `start`: fewer when
    /// the walk has not discovered that many yet, and never blocking — the
    /// answer is whatever is materialized right now.
    pub fn get_slice(&self, start: usize, size: usize) -> (r: Vec<String>)
        ensures
            views_of_strings(r@) == self.commits().subrange(
                if start <= self.commits().len() {
                    start as int
                } else {
                    self.commits().len() as int
                },
                if start + size <= self.commits().len() {
                    start + size
                } else {
                    self.commits().len() as int
                },
            ),
    {
        let n = self.commits.len();
        let lo = if start <= n {
            start
        } else {
            n
        };
        let hi = if size <= n - lo {
            lo + size
        } else {
            n
        };
        let mut r: Vec<String> = Vec::new();
        assert(views_of_strings(r@) =~~= self.commits().subrange(lo as int, lo as int));
        let mut i = lo;
        while i < hi
            invariant
                lo <= i <= hi <= self.commits@.len(),
                views_of_strings(r@) == self.commits().subrange(lo as int, i as int),
            decreases hi - i,
        {
            let ghost pre = r@;
            r.push(self.commits[i].clone());
            proof {
                let v1 = views_of_strings(r@);
                let v2 = self.commits().subrange(lo as int, i + 1);
                assert(views_of_strings(pre).len() == pre.len());
                assert(views_of_strings(pre).len() == i - lo);
                assert(r@.len() == pre.len() + 1);
                assert(v1.len() == r@.len());
                assert(v2.len() == i + 1 - lo);
                assert(v1.len() == v2.len());
                assert forall|k: int| 0 <= k < v1.len() implies v1[k] == v2[k] by {
                    if k < pre.len() {
                        assert(r@[k] == pre[k]);
                        assert(views_of_strings(pre)[k] == pre[k]@);
                    } else {
                        assert(r@[k]@ == self.commits@[i as int]@);
                    }
                }
                assert(views_of_strings(r@) =~~= self.commits().subrange(lo as int, i + 1));
            }
            i += 1;
        }
        proof {
            assert(views_of_strings(r@) =~~= self.commits().subrange(
                if start <= self.commits().len() {
                    start as int
                } else {
                    self.commits().len() as int
                },
                if start + size <= self.commits().len() {
                    start + size
                } else {
                    self.commits().len() as int
                },
            ));
        }
        r
    }
}

} // verus!
