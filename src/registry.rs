//! The process-wide table of marshaled descriptors, keyed by plugin index.
use vstd::prelude::*;

verus! {

/// No plugin index occurs twice in the table.
pub open spec fn unique_indices<T>(s: Seq<(u64, T)>) -> bool {
    forall|i: int, j: int| 0 <= i < j < s.len() ==> (#[trigger] s[i]).0 != (#[trigger] s[j]).0
}

/// The entry stored for `index`, if any.
pub open spec fn spec_lookup<T>(s: Seq<(u64, T)>, index: u64) -> Option<T> {
    if exists|i: int| 0 <= i < s.len() && (#[trigger] s[i]).0 == index {
        Some(s[choose|i: int| 0 <= i < s.len() && (#[trigger] s[i]).0 == index].1)
    } else {
        None
    }
}

/// The table after a request for `index` whose build gave `fetched`: a new
/// entry only when the index had none and the build succeeded.
pub open spec fn spec_after_fetch<T>(s: Seq<(u64, T)>, index: u64, fetched: Option<T>) -> Seq<
    (u64, T),
> {
    match fetched {
        Some(t) => if spec_lookup(s, index) is None {
            s.push((index, t))
        } else {
            s
        },
        None => s,
    }
}

/// The table after a run of requests, each an index with the outcome of
/// building its descriptor.
pub open spec fn spec_after_requests<T>(s: Seq<(u64, T)>, reqs: Seq<(u64, Option<T>)>) -> Seq<
    (u64, T),
>
    decreases reqs.len(),
{
    if reqs.len() == 0 {
        s
    } else {
        spec_after_requests(spec_after_fetch(s, reqs[0].0, reqs[0].1), reqs.drop_first())
    }
}

/// The entry stored for `index` is the one at position `i`.
proof fn lemma_lookup_at<T>(s: Seq<(u64, T)>, index: u64, i: int)
    requires
        unique_indices(s),
        0 <= i < s.len(),
        s[i].0 == index,
    ensures
        spec_lookup(s, index) == Some(s[i].1),
{
    let c = choose|k: int| 0 <= k < s.len() && (#[trigger] s[k]).0 == index;
    assert(c == i) by {
        if c < i {
            assert(s[c].0 != s[i].0);
        } else if c > i {
            assert(s[i].0 != s[c].0);
        }
    }
}

/// One request keeps the indices unique, and keeps the entry of every
/// other index as it was.
proof fn lemma_one_request<T>(s: Seq<(u64, T)>, index: u64, fetched: Option<T>, other: u64)
    requires
        unique_indices(s),
    ensures
        unique_indices(spec_after_fetch(s, index, fetched)),
        spec_lookup(spec_after_fetch(s, index, fetched), index) == if spec_lookup(s, index) is Some {
            spec_lookup(s, index)
        } else {
            fetched
        },
        spec_lookup(s, other) is Some ==> spec_lookup(spec_after_fetch(s, index, fetched), other)
            == spec_lookup(s, other),
        other != index ==> spec_lookup(spec_after_fetch(s, index, fetched), other) == spec_lookup(
            s,
            other,
        ),
{
    let s1 = spec_after_fetch(s, index, fetched);
    if s1 != s {
        let t = fetched->0;
        assert(s1 == s.push((index, t)));
        assert forall|j: int| 0 <= j < s.len() implies (#[trigger] s[j]).0 != index by {
            if s[j].0 == index {
                assert(spec_lookup(s, index) is Some);
            }
        }
        assert(unique_indices(s1)) by {
            assert forall|i: int, j: int| 0 <= i < j < s1.len() implies (#[trigger] s1[i]).0 != (
            #[trigger] s1[j]).0 by {
                if j == s.len() {
                    assert(s1[i] == s[i]);
                } else {
                    assert(s1[i] == s[i] && s1[j] == s[j]);
                }
            }
        }
        lemma_lookup_at(s1, index, s.len() as int);
        if spec_lookup(s, other) is Some {
            let i = choose|k: int| 0 <= k < s.len() && (#[trigger] s[k]).0 == other;
            assert(s1[i] == s[i]);
            lemma_lookup_at(s, other, i);
            lemma_lookup_at(s1, other, i);
        } else if other != index {
            assert forall|k: int| 0 <= k < s1.len() implies (#[trigger] s1[k]).0 != other by {
                if k < s.len() {
                    assert(s1[k] == s[k]);
                }
            }
        }
    }
}

/// Cache stability: once an index has a descriptor, it keeps that same
/// descriptor through any later run of requests, for that index or any
/// other, whatever their builds give. In particular a second request for an
/// index returns what the first one returned.
pub proof fn lemma_cached_entry_is_stable<T>(
    s: Seq<(u64, T)>,
    index: u64,
    reqs: Seq<(u64, Option<T>)>,
)
    requires
        unique_indices(s),
        spec_lookup(s, index) is Some,
    ensures
        spec_lookup(spec_after_requests(s, reqs), index) == spec_lookup(s, index),
    decreases reqs.len(),
{
    if reqs.len() > 0 {
        let s1 = spec_after_fetch(s, reqs[0].0, reqs[0].1);
        lemma_one_request(s, reqs[0].0, reqs[0].1, index);
        lemma_cached_entry_is_stable(s1, index, reqs.drop_first());
    }
}

/// A failed build is never cached: an index without an entry, whose every
/// request in a run finds no descriptor (it lies past the plugins the
/// library declares), still has no entry after the run, so each of those
/// requests answers "no descriptor".
pub proof fn lemma_declined_index_never_cached<T>(
    s: Seq<(u64, T)>,
    index: u64,
    reqs: Seq<(u64, Option<T>)>,
)
    requires
        unique_indices(s),
        spec_lookup(s, index) is None,
        forall|k: int| 0 <= k < reqs.len() && (#[trigger] reqs[k]).0 == index ==> reqs[k].1 is None,
    ensures
        spec_lookup(spec_after_requests(s, reqs), index) is None,
    decreases reqs.len(),
{
    if reqs.len() > 0 {
        let s1 = spec_after_fetch(s, reqs[0].0, reqs[0].1);
        lemma_one_request(s, reqs[0].0, reqs[0].1, index);
        let rest = reqs.drop_first();
        assert forall|k: int| 0 <= k < rest.len() && (#[trigger] rest[k]).0 == index implies rest[k].1 is None by {
            assert(rest[k] == reqs[k + 1]);
        }
        lemma_declined_index_never_cached(s1, index, rest);
    }
}

/// Teardown releases every stored descriptor exactly once: each index with
/// an entry owns exactly one position of the teardown order (newest first),
/// and the descriptor at every position is the entry of its index.
pub proof fn lemma_teardown_releases_each_once<T>(s: Seq<(u64, T)>)
    requires
        unique_indices(s),
    ensures
        forall|k: u64|
            #![trigger spec_lookup(s, k)]
            spec_lookup(s, k) is Some ==> exists|p: int|
                {
                    &&& 0 <= p < s.len()
                    &&& (#[trigger] s[s.len() - 1 - p]).0 == k
                    &&& forall|q: int|
                        0 <= q < s.len() && q != p ==> (#[trigger] s[s.len() - 1 - q]).0 != k
                },
        forall|p: int|
            0 <= p < s.len() ==> spec_lookup(s, (#[trigger] s[s.len() - 1 - p]).0) == Some(
                s[s.len() - 1 - p].1,
            ),
{
    assert forall|k: u64| #![trigger spec_lookup(s, k)] spec_lookup(s, k) is Some implies exists|p: int|
        {
            &&& 0 <= p < s.len()
            &&& (#[trigger] s[s.len() - 1 - p]).0 == k
            &&& forall|q: int|
                0 <= q < s.len() && q != p ==> (#[trigger] s[s.len() - 1 - q]).0 != k
        } by {
        let i = choose|i: int| 0 <= i < s.len() && (#[trigger] s[i]).0 == k;
        let p = s.len() - 1 - i;
        assert(s[s.len() - 1 - p] == s[i]);
        assert forall|q: int| 0 <= q < s.len() && q != p implies (#[trigger] s[s.len() - 1 - q]).0
            != k by {
            let j = s.len() - 1 - q;
            if j < i {
                assert(s[j].0 != s[i].0);
            } else {
                assert(s[i].0 != s[j].0);
            }
        }
    }
    assert forall|p: int| 0 <= p < s.len() implies spec_lookup(s, (#[trigger] s[s.len() - 1 - p]).0)
        == Some(s[s.len() - 1 - p].1) by {
        lemma_lookup_at(s, s[s.len() - 1 - p].0, s.len() - 1 - p);
    }
}

/// The table of descriptors built so far, in the order they were built.
///
/// An entry is never replaced or moved out before teardown: a host that asks
/// twice for one index gets the same descriptor.
pub struct Registry<T> {
    entries: Vec<(u64, T)>,
}

impl<T> View for Registry<T> {
    type V = Seq<(u64, T)>;

    closed spec fn view(&self) -> Seq<(u64, T)> {
        self.entries@
    }
}

impl<T> Registry<T> {
    #[verifier::type_invariant]
    spec fn wf(self) -> bool {
        unique_indices(self.entries@)
    }

    /// An empty table.
    pub fn new() -> (r: Registry<T>)
        ensures
            r@.len() == 0,
            unique_indices(r@),
    {
        Registry { entries: Vec::new() }
    }

    /// The number of descriptors built so far.
    pub fn len(&self) -> (r: usize)
        ensures
            r == self@.len(),
            unique_indices(self@),
    {
        proof {
            use_type_invariant(self);
        }
        self.entries.len()
    }

    /// The descriptor stored for `index`, if one was built.
    pub fn get(&self, index: u64) -> (r: Option<&T>)
        ensures
            r is None <==> spec_lookup(self@, index) is None,
            r matches Some(t) ==> spec_lookup(self@, index) == Some(*t),
    {
        proof {
            use_type_invariant(self);
        }
        let mut i: usize = 0;
        while i < self.entries.len()
            invariant
                0 <= i <= self.entries@.len(),
                unique_indices(self.entries@),
                forall|j: int| 0 <= j < i ==> (#[trigger] self.entries@[j]).0 != index,
            decreases self.entries@.len() - i,
        {
            if self.entries[i].0 == index {
                proof {
                    let s = self.entries@;
                    let c = choose|k: int| 0 <= k < s.len() && (#[trigger] s[k]).0 == index;
                    assert(c == i as int) by {
                        if c < i {
                        } else if c > i {
                            assert(s[i as int].0 != s[c].0);
                        }
                    }
                }
                return Some(&self.entries[i].1);
            }
            i += 1;
        }
        None
    }

    /// Records the outcome of building the descriptor for `index`. A success
    /// is stored only when the index has no entry yet; a failure stores
    /// nothing, so a later request builds again. Returns whether an entry was
    /// added.
    pub fn store(&mut self, index: u64, fetched: Option<T>) -> (added: bool)
        ensures
            final(self)@ == spec_after_fetch(old(self)@, index, fetched),
            unique_indices(final(self)@),
            spec_lookup(final(self)@, index) == if spec_lookup(old(self)@, index) is Some {
                spec_lookup(old(self)@, index)
            } else {
                fetched
            },
            forall|k: u64|
                k != index ==> #[trigger] spec_lookup(final(self)@, k) == spec_lookup(old(self)@, k),
            added == (fetched is Some && spec_lookup(old(self)@, index) is None),
    {
        proof {
            use_type_invariant(&*self);
        }
        match fetched {
            Some(t) => {
                if self.get(index).is_some() {
                    false
                } else {
                    proof {
                        let s = self.entries@;
                        assert forall|j: int| 0 <= j < s.len() implies (#[trigger] s[j]).0
                            != index by {
                            if s[j].0 == index {
                                assert(spec_lookup(s, index) is Some);
                            }
                        }
                        assert(unique_indices(s.push((index, t))));
                    }
                    let mut entries: Vec<(u64, T)> = Vec::new();
                    std::mem::swap(&mut entries, &mut self.entries);
                    entries.push((index, t));
                    self.entries = entries;
                    proof {
                        assert forall|k: u64| k != index implies #[trigger] spec_lookup(
                            self.entries@,
                            k,
                        ) == spec_lookup(old(self)@, k) by {
                            lemma_one_request(old(self)@, index, fetched, k);
                        }
                        lemma_one_request(old(self)@, index, fetched, index);
                    }
                    true
                }
            },
            None => false,
        }
    }

    /// Serves a host's request for `index`: when the index has no entry,
    /// `fetch` builds one and a success is stored; when it has one, `fetch`
    /// is not called and the table stays as it is. Returns whether `fetch`
    /// was called.
    pub fn resolve<G: FnOnce(u64) -> Option<T>>(&mut self, index: u64, fetch: G) -> (fetched:
        bool)
        requires
            fetch.requires((index,)),
        ensures
            fetched == (spec_lookup(old(self)@, index) is None),
            unique_indices(final(self)@),
            !fetched ==> final(self)@ == old(self)@,
            forall|k: u64|
                k != index ==> #[trigger] spec_lookup(final(self)@, k) == spec_lookup(old(self)@, k),
            fetched ==> exists|built: Option<T>|
                fetch.ensures((index,), built) && final(self)@ == spec_after_fetch(
                    old(self)@,
                    index,
                    built,
                ),
    {
        proof {
            use_type_invariant(&*self);
        }
        if self.get(index).is_some() {
            false
        } else {
            let built = fetch(index);
            self.store(index, built);
            true
        }
    }

    /// Ends the table's life and hands back every descriptor it held, newest
    /// first, each exactly once.
    pub fn teardown(self) -> (r: Vec<T>)
        ensures
            r@.len() == self@.len(),
            forall|p: int| 0 <= p < r@.len() ==> #[trigger] r@[p] == self@[self@.len() - 1 - p].1,
    {
        let Registry { entries } = self;
        let mut entries = entries;
        let ghost all = entries@;
        let mut out: Vec<T> = Vec::new();
        while entries.len() > 0
            invariant
                entries@ == all.subrange(0, all.len() - out@.len()),
                out@.len() <= all.len(),
                forall|p: int| 0 <= p < out@.len() ==> #[trigger] out@[p] == all[all.len() - 1 - p].1,
            decreases entries@.len(),
        {
            let last = entries.pop();
            match last {
                Some(e) => {
                    out.push(e.1);
                },
                None => {},
            }
        }
        out
    }
}

/// Brings the process-wide table into being on first access. Returns true
/// exactly when this call created it, which is the one moment to register
/// the teardown hook; a table that exists is left as it is.
pub fn init_once<T>(slot: &mut Option<Registry<T>>) -> (created: bool)
    ensures
        created == (*old(slot) is None),
        *final(slot) is Some,
        *old(slot) is Some ==> *final(slot) == *old(slot),
        *old(slot) is None ==> final(slot).unwrap()@.len() == 0,
{
    if slot.is_none() {
        *slot = Some(Registry::new());
        true
    } else {
        false
    }
}

} // verus!
