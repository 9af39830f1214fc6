//! The registry of broadcast destinations.

use vstd::prelude::*;
use crate::endpoint::Endpoint;

verus! {

/// What a registry holds after `e` was offered to it: `e` is appended unless it
/// is already there.
pub open spec fn with_endpoint(s: Seq<Endpoint>, e: Endpoint) -> Seq<Endpoint> {
    if s.contains(e) {
        s
    } else {
        s.push(e)
    }
}

/// What a registry holds after `e` was withdrawn: every entry but those equal
/// to `e`, in their old order.
pub open spec fn without_endpoint(s: Seq<Endpoint>, e: Endpoint) -> Seq<Endpoint> {
    s.filter(|x: Endpoint| x != e)
}

/// What a registry holds after each endpoint of `es` was offered in turn.
pub open spec fn with_endpoints(s: Seq<Endpoint>, es: Seq<Endpoint>) -> Seq<Endpoint>
    decreases es.len(),
{
    if es.len() == 0 {
        s
    } else {
        with_endpoint(with_endpoints(s, es.drop_last()), es.last())
    }
}

/// The destinations in the order in which they registered, each at most once.
pub struct Registry {
    entries: Vec<Endpoint>,
}

impl View for Registry {
    type V = Seq<Endpoint>;

    closed spec fn view(&self) -> Seq<Endpoint> {
        self.entries@
    }
}

impl Registry {
    #[verifier::type_invariant]
    spec fn unique(&self) -> bool {
        self.entries@.no_duplicates()
    }

    /// Recalls what holds of every registry: no destination stands in it
    /// twice. The call compiles to nothing.
    pub fn recall_unique(&self)
        ensures
            self@.no_duplicates(),
    {
        proof {
            use_type_invariant(self);
        }
    }

    pub fn new() -> (r: Registry)
        ensures
            r@ == Seq::<Endpoint>::empty(),
    {
        Registry { entries: Vec::new() }
    }

    pub fn len(&self) -> (n: usize)
        ensures
            n == self@.len(),
            self@.no_duplicates(),
    {
        proof {
            use_type_invariant(self);
        }
        self.entries.len()
    }

    pub fn is_empty(&self) -> (b: bool)
        ensures
            b == (self@.len() == 0),
    {
        self.entries.len() == 0
    }

    /// The entry at position `i` in order of registration, if there is one.
    pub fn get(&self, i: usize) -> (e: Option<Endpoint>)
        ensures
            e == (if i < self@.len() { Some(self@[i as int]) } else { None }),
    {
        if i < self.entries.len() {
            Some(self.entries[i])
        } else {
            None
        }
    }

    pub fn contains(&self, e: Endpoint) -> (found: bool)
        ensures
            found == self@.contains(e),
    {
        let mut i: usize = 0;
        while i < self.entries.len()
            invariant
                i <= self.entries@.len(),
                forall|j: int| 0 <= j < i ==> self.entries@[j] != e,
            decreases self.entries@.len() - i,
        {
            if self.entries[i] == e {
                return true;
            }
            i += 1;
        }
        false
    }

    /// Registers `e` unless it is registered already, and says whether it was
    /// inserted.
    pub fn add(&mut self, e: Endpoint) -> (inserted: bool)
        ensures
            inserted == !old(self)@.contains(e),
            final(self)@ == with_endpoint(old(self)@, e),
            final(self)@.no_duplicates(),
            final(self)@.len() == old(self)@.len() + (if inserted { 1int } else { 0int }),
    {
        proof {
            use_type_invariant(&*self);
        }
        if self.contains(e) {
            false
        } else {
            let mut entries: Vec<Endpoint> = Vec::new();
            std::mem::swap(&mut self.entries, &mut entries);
            entries.push(e);
            self.entries = entries;
            true
        }
    }

    /// Withdraws the entry for `ip` and `port`, and says whether there was one.
    pub fn remove(&mut self, ip: u32, port: u16) -> (removed: bool)
        ensures
            removed == old(self)@.contains(Endpoint { ip, port }),
            final(self)@ == without_endpoint(old(self)@, Endpoint { ip, port }),
            final(self)@.no_duplicates(),
            final(self)@.len() == old(self)@.len() - (if removed { 1int } else { 0int }),
    {
        proof {
            use_type_invariant(&*self);
        }
        let e = Endpoint { ip, port };
        let ghost before = self.entries@;
        let mut kept: Vec<Endpoint> = Vec::new();
        let mut removed = false;
        let mut i: usize = 0;
        while i < self.entries.len()
            invariant
                self.entries@ == before,
                i <= before.len(),
                kept@ == without_endpoint(before.take(i as int), e),
                removed == before.take(i as int).contains(e),
            decreases before.len() - i,
        {
            let x = self.entries[i];
            proof {
                lemma_without_step(before, e, i as int);
                let cur = before.take(i as int);
                let next = before.take(i + 1);
                assert(next == cur.push(x));
                if cur.contains(e) {
                    let k = choose|k: int| 0 <= k < cur.len() && cur[k] == e;
                    assert(next[k] == e);
                }
                if x == e {
                    assert(next[i as int] == e);
                }
                if next.contains(e) && x != e {
                    let k = choose|k: int| 0 <= k < next.len() && next[k] == e;
                    assert(cur[k] == e);
                }
            }
            if x == e {
                removed = true;
            } else {
                kept.push(x);
            }
            i += 1;
        }
        proof {
            assert(before.take(before.len() as int) == before);
            lemma_without_unique(before, e);
            if before.contains(e) {
                lemma_without_one(before, e);
            }
        }
        self.entries = kept;
        removed
    }

    /// The registered destinations, in order of registration.
    pub fn snapshot(&self) -> (all: Vec<Endpoint>)
        ensures
            all@ == self@,
            all@.no_duplicates(),
    {
        proof {
            use_type_invariant(self);
        }
        self.entries.clone()
    }
}

/// Withdrawing looks at the entries one by one: the entry at `i` stays exactly
/// when it differs from `e`.
pub proof fn lemma_without_step(s: Seq<Endpoint>, e: Endpoint, i: int)
    requires
        0 <= i < s.len(),
    ensures
        without_endpoint(s.take(i + 1), e) == (if s[i] == e {
            without_endpoint(s.take(i), e)
        } else {
            without_endpoint(s.take(i), e).push(s[i])
        }),
{
    reveal(Seq::filter);
    assert(s.take(i + 1).drop_last() == s.take(i));
}

/// Withdrawing `e` leaves a sub-sequence: `e` is gone, every other entry is
/// kept, and no entry is doubled.
pub proof fn lemma_without_unique(s: Seq<Endpoint>, e: Endpoint)
    ensures
        !without_endpoint(s, e).contains(e),
        forall|x: Endpoint| x != e ==> (without_endpoint(s, e).contains(x) <==> s.contains(x)),
        s.no_duplicates() ==> without_endpoint(s, e).no_duplicates(),
        !s.contains(e) ==> without_endpoint(s, e) == s,
        without_endpoint(s, e).len() <= s.len(),
    decreases s.len(),
{
    reveal(Seq::filter);
    if s.len() > 0 {
        let t = s.drop_last();
        let r = without_endpoint(t, e);
        lemma_without_unique(t, e);
        assert forall|x: Endpoint| #[trigger] s.contains(x) <==> (t.contains(x) || x == s.last()) by {
            if s.contains(x) {
                let k = choose|k: int| 0 <= k < s.len() && s[k] == x;
                if k < s.len() - 1 {
                    assert(t[k] == x);
                }
            }
            if t.contains(x) {
                let k = choose|k: int| 0 <= k < t.len() && t[k] == x;
                assert(s[k] == x);
            }
            if x == s.last() {
                assert(s[s.len() - 1] == x);
            }
        }
        if s.last() != e {
            let w = r.push(s.last());
            assert(without_endpoint(s, e) == w);
            assert forall|x: Endpoint| #[trigger] w.contains(x) <==> (r.contains(x) || x == s.last()) by {
                if w.contains(x) {
                    let k = choose|k: int| 0 <= k < w.len() && w[k] == x;
                    if k < r.len() {
                        assert(r[k] == x);
                    }
                }
                if r.contains(x) {
                    let k = choose|k: int| 0 <= k < r.len() && r[k] == x;
                    assert(w[k] == x);
                }
                if x == s.last() {
                    assert(w[w.len() - 1] == x);
                }
            }
            if s.no_duplicates() {
                assert(t.no_duplicates());
                if t.contains(s.last()) {
                    let k = choose|k: int| 0 <= k < t.len() && t[k] == s.last();
                    assert(s[k] == s[s.len() - 1]);
                }
                assert(!r.contains(s.last()));
                assert(w.no_duplicates());
            }
            if !s.contains(e) {
                assert(w == s);
            }
        } else {
            assert(without_endpoint(s, e) == r);
            if s.no_duplicates() {
                assert(t.no_duplicates());
            }
        }
    }
}

/// A registry holds a destination once, so withdrawing one that is registered
/// takes exactly one entry away.
pub proof fn lemma_without_one(s: Seq<Endpoint>, e: Endpoint)
    requires
        s.no_duplicates(),
        s.contains(e),
    ensures
        without_endpoint(s, e).len() == s.len() - 1,
    decreases s.len(),
{
    reveal(Seq::filter);
    let t = s.drop_last();
    assert(t.no_duplicates());
    if s.last() == e {
        if t.contains(e) {
            let k = choose|k: int| 0 <= k < t.len() && t[k] == e;
            assert(s[k] == s[s.len() - 1]);
        }
        lemma_without_unique(t, e);
    } else {
        let k = choose|k: int| 0 <= k < s.len() && s[k] == e;
        assert(t[k] == e);
        lemma_without_one(t, e);
    }
}

/// Registering is idempotent: a destination offered a second time changes
/// nothing and is reported as already there, so an empty registry holds one
/// entry after the same destination was offered twice.
pub proof fn lemma_add_idempotent(s: Seq<Endpoint>, e: Endpoint)
    ensures
        with_endpoint(s, e).contains(e),
        with_endpoint(with_endpoint(s, e), e) == with_endpoint(s, e),
        with_endpoint(with_endpoint(Seq::empty(), e), e).len() == 1,
{
    let once = with_endpoint(s, e);
    if !s.contains(e) {
        assert(once[s.len() as int] == e);
    }
    let first = with_endpoint(Seq::empty(), e);
    assert(first[0] == e);
}

/// Registering a destination that is new and withdrawing it again restores the
/// registry: the same entries in the same order, hence the same size.
pub proof fn lemma_add_then_remove(s: Seq<Endpoint>, e: Endpoint)
    requires
        !s.contains(e),
    ensures
        without_endpoint(with_endpoint(s, e), e) == s,
{
    let grown = s.push(e);
    assert(grown.take(s.len() as int) == s);
    assert(grown.take(s.len() as int + 1) == grown);
    lemma_without_step(grown, e, s.len() as int);
    lemma_without_unique(s, e);
}

/// Withdrawing a destination after registering it leaves what withdrawing it
/// alone leaves, whether or not it was registered before.
pub proof fn lemma_add_then_remove_any(s: Seq<Endpoint>, e: Endpoint)
    ensures
        without_endpoint(with_endpoint(s, e), e) == without_endpoint(s, e),
{
    if !s.contains(e) {
        lemma_add_then_remove(s, e);
        lemma_without_unique(s, e);
    }
}

/// Registering keeps the entries distinct.
pub proof fn lemma_add_keeps_unique(s: Seq<Endpoint>, e: Endpoint)
    requires
        s.no_duplicates(),
    ensures
        with_endpoint(s, e).no_duplicates(),
{
    if !s.contains(e) {
        let grown = s.push(e);
        assert forall|i: int, j: int| 0 <= i < grown.len() && 0 <= j < grown.len() && i != j implies grown[i] != grown[j] by {
            if i < s.len() {
                assert(s[i] == grown[i]);
            }
            if j < s.len() {
                assert(s[j] == grown[j]);
            }
        }
    }
}

/// Whatever destinations are offered, in whatever order and however often, no
/// two entries of the registry are the same destination.
pub proof fn lemma_adds_keep_unique(s: Seq<Endpoint>, es: Seq<Endpoint>)
    requires
        s.no_duplicates(),
    ensures
        with_endpoints(s, es).no_duplicates(),
    decreases es.len(),
{
    if es.len() > 0 {
        lemma_adds_keep_unique(s, es.drop_last());
        lemma_add_keeps_unique(with_endpoints(s, es.drop_last()), es.last());
    }
}

} // verus!
