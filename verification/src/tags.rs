use vstd::prelude::*;
use crate::strutil::views_of_strings;

verus! {

/// The tag names attached to commits: an association from commit id to the
/// list of tag names on it, loaded once per session and then kept —
/// acceptable staleness, since tags change rarely relative to session
/// length.
pub struct Tags {
    entries: Vec<(String, Vec<String>)>,
}

/// The first entry of `s` whose key reads `key`, if any.
pub open spec fn spec_lookup(s: Seq<(String, Vec<String>)>, key: Seq<char>) -> Option<
    Seq<Seq<char>>,
>
    decreases s.len(),
{
    if s.len() == 0 {
        None
    } else if s[0].0@ == key {
        Some(views_of_strings(s[0].1@))
    } else {
        spec_lookup(s.drop_first(), key)
    }
}

/// Dropping a prefix that misses the key leaves the lookup unchanged.
proof fn lemma_lookup_skip(s: Seq<(String, Vec<String>)>, key: Seq<char>, i: int)
    requires
        0 <= i <= s.len(),
        forall|j: int| 0 <= j < i ==> s[j].0@ != key,
    ensures
        spec_lookup(s, key) == spec_lookup(s.skip(i), key),
    decreases i,
{
    if i > 0 {
        assert(s.skip(1) =~= s.drop_first());
        lemma_lookup_skip(s.drop_first(), key, i - 1);
        assert(s.drop_first().skip(i - 1) =~= s.skip(i));
    } else {
        assert(s.skip(0) =~= s);
    }
}

impl Tags {
    pub closed spec fn entries_view(self) -> Seq<(String, Vec<String>)> {
        self.entries@
    }

    /// The tag names recorded for the commit id `key`, if any.
    pub open spec fn spec_get(self, key: Seq<char>) -> Option<Seq<Seq<char>>> {
        spec_lookup(self.entries_view(), key)
    }

    pub fn new() -> (r: Tags)
        ensures
            r.entries_view() == Seq::<(String, Vec<String>)>::empty(),
    {
        Tags { entries: Vec::new() }
    }

    /// Replace the whole association, as one lazy load delivers it.
    pub fn set_entries(&mut self, entries: Vec<(String, Vec<String>)>)
        ensures
            final(self).entries_view() == entries@,
    {
        self.entries = entries;
    }

    pub fn is_empty(&self) -> (r: bool)
        ensures
            r == (self.entries_view().len() == 0),
    {
        self.entries.len() == 0
    }

    /// The tag names on the commit id `hash`: the first entry with that key.
    pub fn get(&self, hash: &String) -> (r: Option<&Vec<String>>)
        ensures
            match r {
                Some(v) => self.spec_get(hash@) == Some(views_of_strings(v@)),
                None => self.spec_get(hash@) is None,
            },
    {
        let n = self.entries.len();
        let mut i: usize = 0;
        while i < n
            invariant
                0 <= i <= n == self.entries@.len(),
                forall|j: int| 0 <= j < i ==> self.entries@[j].0@ != hash@,
            decreases n - i,
        {
            if self.entries[i].0.eq(hash) {
                proof {
                    lemma_lookup_skip(self.entries@, hash@, i as int);
                    assert(self.entries@.skip(i as int)[0] == self.entries@[i as int]);
                }
                return Some(&self.entries[i].1);
            }
            i += 1;
        }
        proof {
            lemma_lookup_skip(self.entries@, hash@, n as int);
            assert(self.entries@.skip(n as int).len() == 0);
        }
        None
    }
}

} // verus!
