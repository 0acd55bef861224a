//! The per-destination sender cache.
//!
//! The producer maps each resolved destination path to one lazily-created
//! sender link. A path's link is attached at most once for the life of the
//! producer: a later request for the same path returns the link already
//! cached, and a request for one path never disturbs the entry of another.
//! Entries are never evicted; the cache grows to at most the number of
//! distinct paths used and is torn down only when the producer closes.
//!
//! The cache records paths in attach order; the position of a path is its
//! sender's identity, by which the surrounding code addresses the link.

use vstd::prelude::*;

verus! {

/// The position of the first occurrence of `p` in `v`, scanning from the
/// front.
pub open spec fn spec_find(v: Seq<Seq<char>>, p: Seq<char>) -> Option<int>
    decreases v.len(),
{
    if v.len() == 0 {
        Option::None
    } else if v[0] == p {
        Option::Some(0)
    } else {
        match spec_find(v.skip(1), p) {
            Option::Some(i) => Option::Some(i + 1),
            Option::None => Option::None,
        }
    }
}

/// What one ensure-sender step does to the cached paths `v`: an existing
/// entry is returned as it stands; a new path is attached once, at the end.
/// The triple is the paths afterwards, the sender's position, and whether
/// an attach occurred.
pub open spec fn spec_ensure(v: Seq<Seq<char>>, p: Seq<char>) -> (Seq<Seq<char>>, int, bool) {
    match spec_find(v, p) {
        Option::Some(i) => (v, i, false),
        Option::None => (v.push(p), v.len() as int, true),
    }
}

/// A successful find points at a matching entry, and at the first one.
proof fn lemma_find_present(v: Seq<Seq<char>>, p: Seq<char>)
    requires
        spec_find(v, p) is Some,
    ensures
        0 <= spec_find(v, p)->Some_0 < v.len(),
        v[spec_find(v, p)->Some_0] == p,
        forall|j: int| 0 <= j < spec_find(v, p)->Some_0 ==> v[j] != p,
    decreases v.len(),
{
    if v.len() > 0 && v[0] != p {
        lemma_find_present(v.skip(1), p);
        assert forall|j: int| 0 <= j < spec_find(v, p)->Some_0 implies v[j] != p by {
            if j > 0 {
                assert(v.skip(1)[j - 1] == v[j]);
            }
        }
    }
}

/// A find fails exactly when no entry matches.
proof fn lemma_find_absent(v: Seq<Seq<char>>, p: Seq<char>)
    ensures
        (spec_find(v, p) is None) <==> (forall|j: int| 0 <= j < v.len() ==> v[j] != p),
    decreases v.len(),
{
    if v.len() > 0 {
        lemma_find_absent(v.skip(1), p);
        if spec_find(v, p) is None {
            assert forall|j: int| 0 <= j < v.len() implies v[j] != p by {
                if j > 0 {
                    assert(v.skip(1)[j - 1] == v[j]);
                }
            }
        } else {
            if v[0] != p {
                assert(spec_find(v.skip(1), p) is Some);
            }
        }
    }
}

/// Scanning a matching entry whose predecessors all differ is exactly what
/// find returns.
proof fn lemma_find_at(v: Seq<Seq<char>>, p: Seq<char>, i: int)
    requires
        0 <= i < v.len(),
        v[i] == p,
        forall|j: int| 0 <= j < i ==> v[j] != p,
    ensures
        spec_find(v, p) == Option::Some(i),
    decreases v.len(),
{
    if i > 0 {
        assert forall|j: int| 0 <= j < i - 1 implies v.skip(1)[j] != p by {
            assert(v.skip(1)[j] == v[j + 1]);
        }
        assert(v.skip(1)[i - 1] == v[i]);
        lemma_find_at(v.skip(1), p, i - 1);
    }
}

/// Appending a different path does not change what find returns.
proof fn lemma_find_push_other(v: Seq<Seq<char>>, q: Seq<char>, p: Seq<char>)
    requires
        p != q,
    ensures
        spec_find(v.push(q), p) == spec_find(v, p),
{
    match spec_find(v, p) {
        Option::Some(i) => {
            lemma_find_present(v, p);
            assert forall|j: int| 0 <= j < i implies v.push(q)[j] != p by {
                assert(v.push(q)[j] == v[j]);
            }
            lemma_find_at(v.push(q), p, i);
        },
        Option::None => {
            lemma_find_absent(v, p);
            lemma_find_absent(v.push(q), p);
            assert forall|j: int| 0 <= j < v.push(q).len() implies v.push(q)[j] != p by {
                if j < v.len() {
                    assert(v.push(q)[j] == v[j]);
                } else {
                    assert(v.push(q)[j] == q);
                }
            }
        },
    }
}

/// Law: for two distinct paths, ensuring a sender for one leaves the
/// other's entry exactly as it was — neither the presence nor the identity
/// of the other path's sender depends on the step.
pub proof fn lemma_ensure_sender_independent(v: Seq<Seq<char>>, p1: Seq<char>, p2: Seq<char>)
    requires
        p1 != p2,
    ensures
        spec_find(spec_ensure(v, p1).0, p2) == spec_find(v, p2),
{
    if spec_find(v, p1) is None {
        lemma_find_push_other(v, p1, p2);
    }
}

/// Law: no step evicts or renumbers an entry. Whatever path a step is for,
/// every path already cached keeps its sender, under the same identity, for
/// the life of the producer.
pub proof fn lemma_ensure_sender_preserves_entries(v: Seq<Seq<char>>, p: Seq<char>, q: Seq<char>)
    requires
        spec_find(v, q) is Some,
    ensures
        spec_find(spec_ensure(v, p).0, q) == spec_find(v, q),
{
    if spec_find(v, p) is None {
        if p == q {
        } else {
            lemma_find_push_other(v, p, q);
        }
    }
}

/// Law: for all callers requesting the same path in turn, exactly one
/// attach occurs and every caller observes the same resulting sender: the
/// step that finds the path present changes nothing and returns the
/// position the first step produced.
pub proof fn lemma_ensure_sender_single_attach(v: Seq<Seq<char>>, p: Seq<char>)
    ensures
        spec_ensure(spec_ensure(v, p).0, p).2 == false,
        spec_ensure(spec_ensure(v, p).0, p).1 == spec_ensure(v, p).1,
        spec_ensure(spec_ensure(v, p).0, p).0 == spec_ensure(v, p).0,
{
    match spec_find(v, p) {
        Option::Some(i) => {},
        Option::None => {
            lemma_find_absent(v, p);
            assert forall|j: int| 0 <= j < v.len() implies v.push(p)[j] != p by {
                assert(v.push(p)[j] == v[j]);
            }
            assert(v.push(p)[v.len() as int] == p);
            lemma_find_at(v.push(p), p, v.len() as int);
        },
    }
}

/// The paths with cached senders, keyed by resolved destination path.
pub struct SenderCache {
    paths: Vec<String>,
}

impl SenderCache {
    /// The cached paths, in attach order; a path's position identifies its
    /// sender.
    pub closed spec fn view(&self) -> Seq<Seq<char>> {
        self.paths@.map_values(|p: String| p@)
    }

    /// No path is cached twice: attach happened at most once per path.
    pub open spec fn wf(&self) -> bool {
        forall|i: int, j: int| 0 <= i < j < self.view().len() ==> self.view()[i] != self.view()[j]
    }

    /// Creates an empty cache.
    pub fn new() -> (c: Self)
        ensures
            c.view() == Seq::<Seq<char>>::empty(),
            c.wf(),
    {
        let c = SenderCache { paths: Vec::new() };
        proof {
            assert(c.view() =~= Seq::<Seq<char>>::empty());
        }
        c
    }

    /// The number of senders attached so far.
    pub fn len(&self) -> (n: usize)
        ensures
            n == self.view().len(),
    {
        self.paths.len()
    }

    /// Tears the cache down, handing back the cached paths in attach
    /// order, one entry per sender to detach.
    pub fn into_paths(self) -> (paths: Vec<String>)
        ensures
            paths@.map_values(|p: String| p@) == self.view(),
    {
        let SenderCache { paths } = self;
        paths
    }

    /// Looks a path up without creating anything.
    pub fn lookup(&self, path: &String) -> (r: Option<usize>)
        ensures
            match r {
                Option::Some(i) => spec_find(self.view(), path@) == Option::Some(i as int),
                Option::None => spec_find(self.view(), path@) is None,
            },
    {
        let mut i: usize = 0;
        while i < self.paths.len()
            invariant
                i <= self.paths.len(),
                forall|j: int| 0 <= j < i ==> self.view()[j] != path@,
            decreases self.paths.len() - i,
        {
            if self.paths[i] == *path {
                proof {
                    lemma_find_at(self.view(), path@, i as int);
                }
                return Option::Some(i);
            }
            i = i + 1;
        }
        proof {
            lemma_find_absent(self.view(), path@);
        }
        Option::None
    }

    /// Returns the sender for `path`, attaching one first when none is
    /// cached yet. The result is the sender's identity and whether this
    /// call attached it. An attach happens at most once per distinct path;
    /// a path already cached is returned untouched.
    pub fn ensure_sender(&mut self, path: &String) -> (r: (usize, bool))
        ensures
            final(self).view() == spec_ensure(old(self).view(), path@).0,
            r.0 as int == spec_ensure(old(self).view(), path@).1,
            r.1 == spec_ensure(old(self).view(), path@).2,
            old(self).wf() ==> final(self).wf(),
    {
        match self.lookup(path) {
            Option::Some(i) => {
                proof {
                    lemma_find_present(old(self).view(), path@);
                }
                (i, false)
            },
            Option::None => {
                proof {
                    lemma_find_absent(old(self).view(), path@);
                }
                let i = self.paths.len();
                self.paths.push(path.clone());
                proof {
                    assert(final(self).view() =~= old(self).view().push(path@));
                }
                (i, true)
            },
        }
    }
}

} // verus!
