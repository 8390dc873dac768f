use vstd::map::*;
use vstd::prelude::*;

verus! {

/// An exact duplicate of a value: the copy is, at the specification
/// level, the very same value.  Implemented by every type stored in an
/// [`AddrTable`].
pub trait ValueCopy: Sized {
    fn value_copy(&self) -> (r: Self)
        ensures
            r == *self,
    ;
}

impl ValueCopy for u128 {
    fn value_copy(&self) -> (r: u128) {
        *self
    }
}

/// The first entry of `s` whose key reads `k`, if any.
pub closed spec fn lookup<V>(s: Seq<(String, V)>, k: Seq<char>) -> Option<V>
    decreases s.len(),
{
    if s.len() == 0 {
        None
    } else if s[0].0@ == k {
        Some(s[0].1)
    } else {
        lookup(s.drop_first(), k)
    }
}

/// A record store keyed by account identifier, the shape the host gives
/// its keyed collections.  Abstractly it is the map from every key to the
/// record stored under it, or `None` where there is none.
pub struct AddrTable<V> {
    entries: Vec<(String, V)>,
}

impl<V> View for AddrTable<V> {
    type V = Map<Seq<char>, Option<V>>;

    closed spec fn view(&self) -> Map<Seq<char>, Option<V>> {
        Map::new(|k: Seq<char>| true, |k: Seq<char>| lookup(self.entries@, k))
    }
}

proof fn lemma_lookup_skip<V>(s: Seq<(String, V)>, k: Seq<char>, i: int)
    requires
        0 <= i <= s.len(),
        forall|j: int| 0 <= j < i ==> s[j].0@ != k,
    ensures
        lookup(s, k) == lookup(s.subrange(i, s.len() as int), k),
    decreases i,
{
    if i == 0 {
        assert(s.subrange(0, s.len() as int) =~= s);
    } else {
        assert(s[0].0@ != k);
        lemma_lookup_skip(s.drop_first(), k, i - 1);
        assert(s.drop_first().subrange(i - 1, s.drop_first().len() as int) =~= s.subrange(
            i,
            s.len() as int,
        ));
    }
}

proof fn lemma_lookup_update_at<V>(s: Seq<(String, V)>, i: int, e: (String, V), m: Seq<char>)
    requires
        0 <= i < s.len(),
        s[i].0@ == e.0@,
        forall|j: int| 0 <= j < i ==> s[j].0@ != e.0@,
    ensures
        lookup(s.update(i, e), m) == if m == e.0@ {
            Some(e.1)
        } else {
            lookup(s, m)
        },
    decreases i,
{
    let s2 = s.update(i, e);
    if i == 0 {
        if m != e.0@ {
            assert(s2.drop_first() =~= s.drop_first());
        }
    } else {
        assert(s2[0] == s[0]);
        assert(s2.drop_first() =~= s.drop_first().update(i - 1, e));
        lemma_lookup_update_at(s.drop_first(), i - 1, e, m);
    }
}

proof fn lemma_lookup_push_at<V>(s: Seq<(String, V)>, e: (String, V), m: Seq<char>)
    requires
        lookup(s, e.0@) is None,
    ensures
        lookup(s.push(e), m) == if m == e.0@ {
            Some(e.1)
        } else {
            lookup(s, m)
        },
    decreases s.len(),
{
    let s2 = s.push(e);
    if s.len() == 0 {
        assert(s2[0] == e);
        if m != e.0@ {
            assert(s2.drop_first() =~= Seq::<(String, V)>::empty());
        }
    } else {
        assert(s2[0] == s[0]);
        assert(s2.drop_first() =~= s.drop_first().push(e));
        lemma_lookup_push_at(s.drop_first(), e, m);
    }
}

impl<V> AddrTable<V> {
    /// A store with no records at all.
    pub fn new() -> (r: AddrTable<V>)
        ensures
            forall|k: Seq<char>| #[trigger] r@[k] is None,
    {
        let r = AddrTable { entries: Vec::new() };
        proof {
            assert(forall|k: Seq<char>| #[trigger] lookup(r.entries@, k) is None);
        }
        r
    }

    /// Stores `value` under `key`, replacing any earlier record.
    pub fn set(&mut self, key: &String, value: V)
        ensures
            final(self)@ == old(self)@.insert(key@, Some(value)),
    {
        let n = self.entries.len();
        let mut i: usize = 0;
        while i < n
            invariant
                *self == *old(self),
                n == self.entries@.len(),
                i <= n,
                forall|j: int| 0 <= j < i ==> self.entries@[j].0@ != key@,
            decreases n - i,
        {
            if self.entries[i].0 == *key {
                let e = (key.clone(), value);
                let ghost ge = e;
                self.entries[i] = e;
                proof {
                    assert_maps_equal!(self@, old(self)@.insert(key@, Some(ge.1)), m => {
                        lemma_lookup_update_at(old(self).entries@, i as int, ge, m);
                    });
                }
                return ;
            }
            i += 1;
        }
        let e = (key.clone(), value);
        let ghost ge = e;
        proof {
            lemma_lookup_skip(self.entries@, key@, n as int);
            assert(self.entries@.subrange(n as int, n as int) =~= Seq::<(String, V)>::empty());
        }
        self.entries.push(e);
        proof {
            assert_maps_equal!(self@, old(self)@.insert(key@, Some(ge.1)), m => {
                lemma_lookup_push_at(old(self).entries@, ge, m);
            });
        }
    }
}

impl<V: ValueCopy> AddrTable<V> {
    /// The record stored under `key`, if any.
    pub fn get(&self, key: &String) -> (r: Option<V>)
        ensures
            r == self@[key@],
    {
        let n = self.entries.len();
        let mut i: usize = 0;
        while i < n
            invariant
                n == self.entries@.len(),
                i <= n,
                forall|j: int| 0 <= j < i ==> self.entries@[j].0@ != key@,
            decreases n - i,
        {
            if self.entries[i].0 == *key {
                let r = Some(self.entries[i].1.value_copy());
                proof {
                    lemma_lookup_skip(self.entries@, key@, i as int);
                    assert(self.entries@.subrange(i as int, n as int)[0] == self.entries@[i as int]);
                }
                return r;
            }
            i += 1;
        }
        proof {
            lemma_lookup_skip(self.entries@, key@, n as int);
            assert(self.entries@.subrange(n as int, n as int) =~= Seq::<(String, V)>::empty());
        }
        None
    }
}

/// The first entry of `s` keyed by the pair `(a, b)`, if any.
pub closed spec fn lookup_pair<V>(s: Seq<(String, String, V)>, a: Seq<char>, b: Seq<char>) -> Option<
    V,
>
    decreases s.len(),
{
    if s.len() == 0 {
        None
    } else if s[0].0@ == a && s[0].1@ == b {
        Some(s[0].2)
    } else {
        lookup_pair(s.drop_first(), a, b)
    }
}

/// A record store keyed by an ordered pair of account identifiers, as the
/// host keys delegations by granter and grantee.
pub struct PairTable<V> {
    entries: Vec<(String, String, V)>,
}

impl<V> View for PairTable<V> {
    type V = Map<(Seq<char>, Seq<char>), Option<V>>;

    closed spec fn view(&self) -> Map<(Seq<char>, Seq<char>), Option<V>> {
        Map::new(
            |p: (Seq<char>, Seq<char>)| true,
            |p: (Seq<char>, Seq<char>)| lookup_pair(self.entries@, p.0, p.1),
        )
    }
}

proof fn lemma_pair_skip<V>(s: Seq<(String, String, V)>, a: Seq<char>, b: Seq<char>, i: int)
    requires
        0 <= i <= s.len(),
        forall|j: int| 0 <= j < i ==> !(s[j].0@ == a && s[j].1@ == b),
    ensures
        lookup_pair(s, a, b) == lookup_pair(s.subrange(i, s.len() as int), a, b),
    decreases i,
{
    if i == 0 {
        assert(s.subrange(0, s.len() as int) =~= s);
    } else {
        assert(!(s[0].0@ == a && s[0].1@ == b));
        lemma_pair_skip(s.drop_first(), a, b, i - 1);
        assert(s.drop_first().subrange(i - 1, s.drop_first().len() as int) =~= s.subrange(
            i,
            s.len() as int,
        ));
    }
}

proof fn lemma_pair_update_at<V>(
    s: Seq<(String, String, V)>,
    i: int,
    e: (String, String, V),
    a: Seq<char>,
    b: Seq<char>,
)
    requires
        0 <= i < s.len(),
        s[i].0@ == e.0@,
        s[i].1@ == e.1@,
        forall|j: int| 0 <= j < i ==> !(s[j].0@ == e.0@ && s[j].1@ == e.1@),
    ensures
        lookup_pair(s.update(i, e), a, b) == if a == e.0@ && b == e.1@ {
            Some(e.2)
        } else {
            lookup_pair(s, a, b)
        },
    decreases i,
{
    let s2 = s.update(i, e);
    if i == 0 {
        if !(a == e.0@ && b == e.1@) {
            assert(s2.drop_first() =~= s.drop_first());
        }
    } else {
        assert(s2[0] == s[0]);
        assert(s2.drop_first() =~= s.drop_first().update(i - 1, e));
        lemma_pair_update_at(s.drop_first(), i - 1, e, a, b);
    }
}

proof fn lemma_pair_push_at<V>(
    s: Seq<(String, String, V)>,
    e: (String, String, V),
    a: Seq<char>,
    b: Seq<char>,
)
    requires
        lookup_pair(s, e.0@, e.1@) is None,
    ensures
        lookup_pair(s.push(e), a, b) == if a == e.0@ && b == e.1@ {
            Some(e.2)
        } else {
            lookup_pair(s, a, b)
        },
    decreases s.len(),
{
    let s2 = s.push(e);
    if s.len() == 0 {
        assert(s2[0] == e);
        if !(a == e.0@ && b == e.1@) {
            assert(s2.drop_first() =~= Seq::<(String, String, V)>::empty());
        }
    } else {
        assert(s2[0] == s[0]);
        assert(s2.drop_first() =~= s.drop_first().push(e));
        lemma_pair_push_at(s.drop_first(), e, a, b);
    }
}

impl<V> PairTable<V> {
    /// A store with no records at all.
    pub fn new() -> (r: PairTable<V>)
        ensures
            forall|p: (Seq<char>, Seq<char>)| #[trigger] r@[p] is None,
    {
        let r = PairTable { entries: Vec::new() };
        proof {
            assert(forall|p: (Seq<char>, Seq<char>)|
                #[trigger] lookup_pair(r.entries@, p.0, p.1) is None);
        }
        r
    }

    /// Stores `value` under `(a, b)`, replacing any earlier record.
    pub fn set(&mut self, a: &String, b: &String, value: V)
        ensures
            final(self)@ == old(self)@.insert((a@, b@), Some(value)),
    {
        let n = self.entries.len();
        let mut i: usize = 0;
        while i < n
            invariant
                *self == *old(self),
                n == self.entries@.len(),
                i <= n,
                forall|j: int|
                    0 <= j < i ==> !(self.entries@[j].0@ == a@ && self.entries@[j].1@ == b@),
            decreases n - i,
        {
            if self.entries[i].0 == *a && self.entries[i].1 == *b {
                let e = (a.clone(), b.clone(), value);
                let ghost ge = e;
                self.entries[i] = e;
                proof {
                    assert_maps_equal!(self@, old(self)@.insert((a@, b@), Some(ge.2)), m => {
                        lemma_pair_update_at(old(self).entries@, i as int, ge, m.0, m.1);
                        assert(m == (m.0, m.1));
                    });
                }
                return ;
            }
            i += 1;
        }
        let e = (a.clone(), b.clone(), value);
        let ghost ge = e;
        proof {
            lemma_pair_skip(self.entries@, a@, b@, n as int);
            assert(self.entries@.subrange(n as int, n as int) =~= Seq::<(
                String,
                String,
                V,
            )>::empty());
        }
        self.entries.push(e);
        proof {
            assert_maps_equal!(self@, old(self)@.insert((a@, b@), Some(ge.2)), m => {
                lemma_pair_push_at(old(self).entries@, ge, m.0, m.1);
                assert(m == (m.0, m.1));
            });
        }
    }
}

impl<V: Copy> PairTable<V> {
    /// The record stored under `(a, b)`, if any.
    pub fn get(&self, a: &String, b: &String) -> (r: Option<V>)
        ensures
            r == self@[(a@, b@)],
    {
        let n = self.entries.len();
        let mut i: usize = 0;
        while i < n
            invariant
                n == self.entries@.len(),
                i <= n,
                forall|j: int|
                    0 <= j < i ==> !(self.entries@[j].0@ == a@ && self.entries@[j].1@ == b@),
            decreases n - i,
        {
            if self.entries[i].0 == *a && self.entries[i].1 == *b {
                let r = Some(self.entries[i].2);
                proof {
                    lemma_pair_skip(self.entries@, a@, b@, i as int);
                    assert(self.entries@.subrange(i as int, n as int)[0] == self.entries@[i as int]);
                }
                return r;
            }
            i += 1;
        }
        proof {
            lemma_pair_skip(self.entries@, a@, b@, n as int);
            assert(self.entries@.subrange(n as int, n as int) =~= Seq::<(
                String,
                String,
                V,
            )>::empty());
        }
        None
    }
}

} // verus!
