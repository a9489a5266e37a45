use vstd::prelude::*;

verus! {

/// Most connection strings a history keeps.
pub const HISTORY_LIMIT: usize = 10;

/// The text of each string of a sequence.
pub open spec fn texts(v: Seq<String>) -> Seq<Seq<char>> {
    v.map_values(|s: String| s@)
}

/// No string occurs twice.
pub open spec fn unique(h: Seq<Seq<char>>) -> bool {
    forall|i: int, j: int| 0 <= i < j < h.len() ==> h[i] != h[j]
}

/// The entries other than `uri`, in their order.
pub open spec fn without(h: Seq<Seq<char>>, uri: Seq<char>) -> Seq<Seq<char>> {
    h.filter(|x: Seq<char>| x != uri)
}

/// The history after `uri` was used: `uri` first, then the earlier entries
/// without it, in their order, cut to the limit.
pub open spec fn with_recent(h: Seq<Seq<char>>, uri: Seq<char>) -> Seq<Seq<char>> {
    let full = seq![uri] + without(h, uri);
    if full.len() > HISTORY_LIMIT {
        full.take(HISTORY_LIMIT as int)
    } else {
        full
    }
}

/// Connection strings used before, most recent first.
#[derive(Debug, Clone)]
pub struct ConnectionHistory {
    pub uris: Vec<String>,
}

impl View for ConnectionHistory {
    type V = Seq<Seq<char>>;

    open spec fn view(&self) -> Seq<Seq<char>> {
        texts(self.uris@)
    }
}

impl ConnectionHistory {
    /// At most the limit of entries, none twice.
    pub open spec fn wf(&self) -> bool {
        self@.len() <= HISTORY_LIMIT && unique(self@)
    }

    pub fn new() -> (r: Self)
        ensures
            r@ == Seq::<Seq<char>>::empty(),
            r.wf(),
    {
        ConnectionHistory { uris: Vec::new() }
    }

    /// Whether the history is within the limit and holds no duplicate.
    pub fn is_valid(&self) -> (r: bool)
        ensures
            r == self.wf(),
    {
        let n = self.uris.len();
        if n > HISTORY_LIMIT {
            return false;
        }
        let mut i: usize = 0;
        while i < n
            invariant
                n == self.uris.len(),
                i <= n,
                forall|a: int, b: int| 0 <= a < b < n && a < i ==> self@[a] != self@[b],
            decreases n - i,
        {
            let mut j: usize = i + 1;
            while j < n
                invariant
                    n == self.uris.len(),
                    i < j <= n,
                    forall|a: int, b: int| 0 <= a < b < n && a < i ==> self@[a] != self@[b],
                    forall|b: int| i < b < j ==> self@[i as int] != self@[b],
                decreases n - j,
            {
                if self.uris[i] == self.uris[j] {
                    assert(self@[i as int] == self@[j as int]);
                    return false;
                }
                j = j + 1;
            }
            i = i + 1;
        }
        true
    }

    /// Moves `uri` to the front, or puts it there, and keeps at most the limit.
    pub fn add_uri(&mut self, uri: String)
        ensures
            final(self)@ == with_recent(old(self)@, uri@),
            final(self)@.len() <= HISTORY_LIMIT,
            old(self).wf() ==> final(self).wf(),
    {
        let ghost h = self@;
        let ghost u = uri@;
        let mut out: Vec<String> = Vec::new();
        let mut i: usize = 0;
        while i < self.uris.len()
            invariant
                0 <= i <= self.uris.len(),
                h == self@,
                u == uri@,
                texts(out@) == without(h.take(i as int), u),
            decreases self.uris.len() - i,
        {
            let same = self.uris[i] == uri;
            proof {
                reveal(Seq::filter);
                assert(h.take(i as int + 1).drop_last() =~= h.take(i as int));
                assert(h.take(i as int + 1).last() == self.uris@[i as int]@);
            }
            if !same {
                out.push(self.uris[i].clone());
                assert(texts(out@) =~= without(h.take(i as int + 1), u));
            }
            i = i + 1;
        }
        assert(h.take(i as int) =~= h);
        out.insert(0, uri);
        assert(texts(out@) =~= seq![u] + without(h, u));
        if out.len() > HISTORY_LIMIT {
            out.truncate(HISTORY_LIMIT);
            assert(texts(out@) =~= (seq![u] + without(h, u)).take(HISTORY_LIMIT as int));
        }
        self.uris = out;
        proof {
            lemma_with_recent_unique(h, u);
        }
    }
}

/// Each entry of a filtered sequence is one that the predicate keeps, and a
/// sequence without duplicates keeps none after filtering.
proof fn lemma_filter_keeps_unique(h: Seq<Seq<char>>, u: Seq<char>)
    ensures
        forall|k: int| 0 <= k < without(h, u).len() ==> #[trigger] without(h, u)[k] != u,
        unique(h) ==> unique(without(h, u)),
    decreases h.len(),
{
    reveal(Seq::filter);
    let keep = |x: Seq<char>| x != u;
    if h.len() > 0 {
        lemma_filter_keeps_unique(h.drop_last(), u);
        assert(unique(h) ==> unique(h.drop_last()));
        if unique(h) {
            let d = h.drop_last();
            lemma_without_within(d, u);
            let f = without(d, u);
            if keep(h.last()) {
                assert forall|k: int| 0 <= k < f.len() implies f[k] != h.last() by {
                    let j = choose|j: int| 0 <= j < d.len() && d[j] == f[k];
                    assert(h[j] == d[j]);
                }
                assert(without(h, u) == f.push(h.last()));
            } else {
                assert(without(h, u) == f);
            }
        }
    }
}

/// Every entry of `without(h, u)` comes from `h`.
proof fn lemma_without_within(h: Seq<Seq<char>>, u: Seq<char>)
    ensures
        forall|k: int| 0 <= k < without(h, u).len() ==> h.contains(#[trigger] without(h, u)[k]),
    decreases h.len(),
{
    reveal(Seq::filter);
    if h.len() > 0 {
        let d = h.drop_last();
        lemma_without_within(d, u);
        let f = without(h, u);
        assert forall|k: int| 0 <= k < f.len() implies h.contains(#[trigger] f[k]) by {
            if k < without(d, u).len() {
                let j = choose|j: int| 0 <= j < d.len() && d[j] == without(d, u)[k];
                assert(h[j] == f[k]);
            } else {
                assert(f[k] == h[h.len() - 1]);
            }
        }
    }
}

/// A history built by `with_recent` is within the limit and holds no
/// duplicate, whatever it was built from.
pub proof fn lemma_with_recent_unique(h: Seq<Seq<char>>, u: Seq<char>)
    ensures
        with_recent(h, u).len() <= HISTORY_LIMIT,
        with_recent(h, u).len() > 0,
        with_recent(h, u)[0] == u,
        unique(h) ==> unique(with_recent(h, u)),
{
    lemma_filter_keeps_unique(h, u);
    let rest = without(h, u);
    let full = seq![u] + rest;
    if unique(h) {
        assert forall|i: int, j: int| 0 <= i < j < full.len() implies full[i] != full[j] by {
            if i == 0 {
                assert(full[j] == rest[j - 1]);
            } else {
                assert(full[i] == rest[i - 1]);
                assert(full[j] == rest[j - 1]);
            }
        }
    }
}

/// Filtering out the first entry, which occurs nowhere else, leaves the rest.
proof fn lemma_without_head(h: Seq<Seq<char>>, u: Seq<char>)
    requires
        h.len() > 0,
        h[0] == u,
        forall|i: int| 1 <= i < h.len() ==> h[i] != u,
    ensures
        without(h, u) == h.subrange(1, h.len() as int),
    decreases h.len(),
{
    reveal(Seq::filter);
    if h.len() == 1 {
        assert(h.drop_last() =~= Seq::<Seq<char>>::empty());
        assert(without(h.drop_last(), u) =~= Seq::<Seq<char>>::empty());
        assert(h.subrange(1, 1) =~= Seq::<Seq<char>>::empty());
    } else {
        lemma_without_head(h.drop_last(), u);
        assert(h.last() != u);
        assert(without(h, u) == without(h.drop_last(), u).push(h.last()));
        assert(h.drop_last().subrange(1, h.len() - 1).push(h.last()) =~= h.subrange(
            1,
            h.len() as int,
        ));
    }
}

/// Using the same connection string twice in a row leaves the history as the
/// first use left it: that string first, nowhere else, and at most the limit
/// of entries.
pub proof fn lemma_add_uri_twice(h: Seq<Seq<char>>, x: Seq<char>)
    ensures
        with_recent(with_recent(h, x), x) == with_recent(h, x),
        with_recent(h, x)[0] == x,
        forall|i: int| 1 <= i < with_recent(h, x).len() ==> with_recent(h, x)[i] != x,
        with_recent(h, x).len() <= HISTORY_LIMIT,
        unique(h) ==> unique(with_recent(h, x)),
{
    lemma_with_recent_unique(h, x);
    lemma_filter_keeps_unique(h, x);
    let g = with_recent(h, x);
    let tail = g.subrange(1, g.len() as int);
    assert forall|i: int| 1 <= i < g.len() implies g[i] != x by {
        assert(g[i] == without(h, x)[i - 1]);
    }
    assert forall|i: int| 0 <= i < tail.len() implies tail[i] != x by {
        assert(tail[i] == g[i + 1]);
    }
    lemma_without_head(g, x);
    assert(seq![x] + without(g, x) =~= g);
}

} // verus!
