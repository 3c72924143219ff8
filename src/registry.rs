use vstd::prelude::*;

verus! {

/// How many times `k` occurs in `s`.
pub open spec fn occurrences(s: Seq<Seq<char>>, k: Seq<char>) -> nat
    decreases s.len(),
{
    if s.len() == 0 {
        0
    } else {
        occurrences(s.drop_last(), k) + if s.last() == k {
            1nat
        } else {
            0nat
        }
    }
}

/// The last position of `k` in `s`, or -1 where it does not occur.
pub open spec fn position(s: Seq<Seq<char>>, k: Seq<char>) -> int
    decreases s.len(),
{
    if s.len() == 0 {
        -1
    } else if s.last() == k {
        s.len() - 1
    } else {
        position(s.drop_last(), k)
    }
}

proof fn lemma_position(s: Seq<Seq<char>>, k: Seq<char>)
    ensures
        -1 <= position(s, k) < s.len(),
        position(s, k) >= 0 ==> s[position(s, k)] == k,
        position(s, k) >= 0 <==> occurrences(s, k) > 0,
        position(s, k) < 0 <==> !s.contains(k),
    decreases s.len(),
{
    if s.len() > 0 {
        lemma_position(s.drop_last(), k);
        if s.last() != k {
            if s.contains(k) {
                let i = choose|i: int| 0 <= i < s.len() && s[i] == k;
                assert(s.drop_last()[i] == k);
            }
            if s.drop_last().contains(k) {
                let i = choose|i: int| 0 <= i < s.len() - 1 && s.drop_last()[i] == k;
                assert(s[i] == k);
            }
        } else {
            assert(s[s.len() - 1] == k);
        }
    }
}

proof fn lemma_single_position(s: Seq<Seq<char>>, k: Seq<char>, i: int)
    requires
        0 <= i < s.len(),
        s[i] == k,
        occurrences(s, k) <= 1,
    ensures
        position(s, k) == i,
    decreases s.len(),
{
    if s.last() == k {
        if i != s.len() - 1 {
            lemma_position(s.drop_last(), k);
            assert(s.drop_last()[i] == k);
            assert(s.drop_last().contains(k));
        }
    } else {
        lemma_single_position(s.drop_last(), k, i);
    }
}

/// The map from node identity to the shared handle of its engine.
///
/// Each identity stands at most once; a later publish under the same
/// identity replaces the handle and never adds a second entry.
pub struct Registry<H> {
    keys: Vec<String>,
    handles: Vec<H>,
}

impl<H> View for Registry<H> {
    type V = Map<Seq<char>, H>;

    closed spec fn view(&self) -> Map<Seq<char>, H> {
        Map::new(
            |k: Seq<char>| position(self.key_seq(), k) >= 0,
            |k: Seq<char>| self.handles@[position(self.key_seq(), k)],
        )
    }
}

impl<H> Registry<H> {
    /// The identities in the order they were first published.
    pub closed spec fn key_seq(&self) -> Seq<Seq<char>> {
        self.keys@.map_values(|s: String| s@)
    }

    /// How many entries the registry holds for `k`.
    pub closed spec fn count_of(&self, k: Seq<char>) -> nat {
        occurrences(self.key_seq(), k)
    }

    /// How many entries the registry holds.
    pub closed spec fn size(&self) -> nat {
        self.keys@.len()
    }

    pub closed spec fn wf(&self) -> bool {
        &&& self.keys@.len() == self.handles@.len()
        &&& forall|k: Seq<char>| #[trigger] self.count_of(k) <= 1
    }

    /// An empty registry.
    pub fn new() -> (r: Self)
        ensures
            r.wf(),
            r@ == Map::<Seq<char>, H>::empty(),
            r.size() == 0,
    {
        let r = Registry { keys: Vec::new(), handles: Vec::new() };
        assert(r@ =~= Map::<Seq<char>, H>::empty());
        r
    }

    /// The number of identities held.
    pub fn len(&self) -> (r: usize)
        ensures
            r == self.size(),
    {
        self.keys.len()
    }

    /// The handle published under `key`, if any.
    pub fn lookup(&self, key: &String) -> (r: Option<&H>)
        requires
            self.wf(),
        ensures
            r.is_some() == self@.contains_key(key@),
            r.is_some() ==> *r.unwrap() == self@[key@],
    {
        let n = self.keys.len();
        let mut i: usize = 0;
        while i < n
            invariant
                n == self.keys@.len(),
                self.wf(),
                0 <= i <= n,
                forall|j: int| 0 <= j < i ==> self.key_seq()[j] != key@,
            decreases n - i,
        {
            if self.keys[i] == *key {
                proof {
                    assert(self.key_seq()[i as int] == key@);
                    assert(self.count_of(key@) <= 1);
                    lemma_single_position(self.key_seq(), key@, i as int);
                }
                return Some(&self.handles[i]);
            }
            i = i + 1;
        }
        proof {
            lemma_position(self.key_seq(), key@);
            if self.key_seq().contains(key@) {
                let j = choose|j: int| 0 <= j < self.key_seq().len() && self.key_seq()[j] == key@;
                assert(self.key_seq()[j] != key@);
            }
        }
        None
    }

    /// Binds `key` to `h`: replaces the handle where `key` is held, else adds
    /// an entry.
    pub fn publish(&mut self, key: String, h: H)
        requires
            old(self).wf(),
        ensures
            final(self).wf(),
            final(self)@ == old(self)@.insert(key@, h),
            final(self).count_of(key@) == 1,
            final(self).size() == old(self).size() + if old(self)@.contains_key(key@) {
                0int
            } else {
                1int
            },
    {
        let ghost old_keys = self.key_seq();
        let n = self.keys.len();
        let mut i: usize = 0;
        while i < n
            invariant
                n == self.keys@.len(),
                self.wf(),
                self.key_seq() == old_keys,
                self.keys@ == old(self).keys@,
                self.handles@ == old(self).handles@,
                old(self).wf(),
                0 <= i <= n,
                forall|j: int| 0 <= j < i ==> old_keys[j] != key@,
            decreases n - i,
        {
            if self.keys[i] == key {
                proof {
                    assert(old_keys[i as int] == key@);
                    assert(self.count_of(key@) <= 1);
                    lemma_single_position(old_keys, key@, i as int);
                    lemma_position(old_keys, key@);
                }
                self.handles.set(i, h);
                proof {
                    assert(self.key_seq() == old_keys);
                    assert forall|k: Seq<char>| #![auto]
                        self@.contains_key(k) == old(self)@.insert(key@, h).contains_key(k)
                        && (self@.contains_key(k) ==> self@[k] == old(self)@.insert(key@, h)[k])
                    by {
                        lemma_position(old_keys, k);
                        if k != key@ && position(old_keys, k) >= 0 {
                            assert(position(old_keys, k) != i);
                        }
                    }
                    assert(self@ =~= old(self)@.insert(key@, h));
                    assert forall|k: Seq<char>| #[trigger] self.count_of(k) <= 1 by {
                        assert(old(self).count_of(k) <= 1);
                    }
                }
                return;
            }
            i = i + 1;
        }
        proof {
            lemma_position(old_keys, key@);
            if old_keys.contains(key@) {
                let j = choose|j: int| 0 <= j < old_keys.len() && old_keys[j] == key@;
                assert(old_keys[j] != key@);
            }
        }
        self.keys.push(key);
        self.handles.push(h);
        proof {
            let ks = self.key_seq();
            assert(ks.drop_last() =~= old_keys);
            assert(ks.last() == key@);
            assert(occurrences(ks, key@) == occurrences(old_keys, key@) + 1);
            assert forall|k: Seq<char>| #[trigger] self.count_of(k) <= 1 by {
                assert(old(self).count_of(k) <= 1);
            }
            assert forall|k: Seq<char>| #![auto]
                self@.contains_key(k) == old(self)@.insert(key@, h).contains_key(k)
                && (self@.contains_key(k) ==> self@[k] == old(self)@.insert(key@, h)[k])
            by {
                lemma_position(old_keys, k);
                if k != key@ {
                    assert(position(ks, k) == position(old_keys, k));
                    if position(old_keys, k) >= 0 {
                        assert(self.handles@[position(old_keys, k)] == old(
                            self,
                        ).handles@[position(old_keys, k)]);
                    }
                }
            }
            assert(self@ =~= old(self)@.insert(key@, h));
        }
    }
}

/// Publishing `h` under `k` makes a lookup of `k` give `h`; publishing `h2`
/// under `k` afterwards makes it give `h2`, and adds no identity.
pub proof fn publish_then_lookup<H>(
    r0: Registry<H>,
    r1: Registry<H>,
    r2: Registry<H>,
    k: Seq<char>,
    h: H,
    h2: H,
)
    requires
        r1@ == r0@.insert(k, h),
        r2@ == r1@.insert(k, h2),
    ensures
        r1@.contains_key(k) && r1@[k] == h,
        r2@.contains_key(k) && r2@[k] == h2,
        r2@.dom() == r1@.dom(),
        forall|j: Seq<char>| j != k ==> r2@.contains_key(j) == r0@.contains_key(j),
{
    assert(r2@.dom() =~= r1@.dom());
}

} // verus!
