//! Property lists: pairs of a key and a value, closed by a key of zero.

use vstd::prelude::*;

verus! {
/// The key of the `j`-th pair of a list of words.
pub open spec fn key_at(words: Seq<u64>, j: int) -> u64 {
    words[2 * j]
}

/// The value of the `j`-th pair of a list of words.
pub open spec fn value_at(words: Seq<u64>, j: int) -> u64 {
    words[2 * j + 1]
}

/// The list holds `k` pairs with keys other than zero, and a zero where the
/// key of the next pair would stand.
pub open spec fn terminated_at(words: Seq<u64>, k: int) -> bool {
    &&& 0 <= k
    &&& 2 * k < words.len()
    &&& key_at(words, k) == 0
    &&& forall|j: int| 0 <= j < k ==> (#[trigger] key_at(words, j)) != 0
}

/// The first `k` pairs of a list of words.
pub open spec fn pairs_of(words: Seq<u64>, k: int) -> Seq<(u64, u64)> {
    Seq::new(k as nat, |j: int| (key_at(words, j), value_at(words, j)))
}

/// No key occurs in two pairs.
pub open spec fn distinct_keys(pairs: Seq<(u64, u64)>) -> bool {
    forall|i: int, j: int| 0 <= i < j < pairs.len() ==> (#[trigger] pairs[i]).0 != (
    #[trigger] pairs[j]).0
}

/// The pairs that a list of words spells out: those before the closing
/// zero, provided that there is one and that no key is repeated.
pub open spec fn parse(words: Seq<u64>) -> Option<Seq<(u64, u64)>> {
    if exists|k: int| terminated_at(words, k) {
        let k = choose|k: int| terminated_at(words, k);
        if distinct_keys(pairs_of(words, k)) {
            Some(pairs_of(words, k))
        } else {
            None
        }
    } else {
        None
    }
}

/// A list of words is closed at one place at most.
pub proof fn lemma_terminator_unique(words: Seq<u64>, k1: int, k2: int)
    requires
        terminated_at(words, k1),
        terminated_at(words, k2),
    ensures
        k1 == k2,
{
}

/// The index of the pair with the given key, if there is one.
pub open spec fn position_of(pairs: Seq<(u64, u64)>, key: u64) -> Option<int> {
    if exists|i: int| 0 <= i < pairs.len() && (#[trigger] pairs[i]).0 == key {
        Some(choose|i: int| 0 <= i < pairs.len() && (#[trigger] pairs[i]).0 == key)
    } else {
        None
    }
}

/// The value that goes with the key, if a pair has the key.
pub open spec fn value_of(pairs: Seq<(u64, u64)>, key: u64) -> Option<u64> {
    match position_of(pairs, key) {
        Some(i) => Some(pairs[i].1),
        None => None,
    }
}

/// A property list as an object keeps it.
#[derive(Debug, PartialEq, Eq)]
pub struct Properties {
    pairs: Vec<(u64, u64)>,
    given: bool,
}

impl View for Properties {
    type V = Seq<(u64, u64)>;

    closed spec fn view(&self) -> Seq<(u64, u64)> {
        self.pairs@
    }
}

impl Properties {
    /// No key is zero, none is repeated, and a list that was left out holds
    /// no pair.
    #[verifier::type_invariant]
    pub closed spec fn wf(&self) -> bool {
        &&& forall|j: int| 0 <= j < self.pairs@.len() ==> (#[trigger] self.pairs@[j]).0 != 0
        &&& distinct_keys(self.pairs@)
        &&& !self.given ==> self.pairs@.len() == 0
    }

    /// Whether the list was given at all, closing zero and all, rather than
    /// left out.
    pub closed spec fn spec_is_given(&self) -> bool {
        self.given
    }

    /// The list of an object that was made without one.
    pub fn empty() -> (r: Properties)
        ensures
            r@ == Seq::<(u64, u64)>::empty(),
            !r.spec_is_given(),
    {
        Properties { pairs: Vec::new(), given: false }
    }

    /// Reads the words of a property list. With no list (`None`) the result
    /// is the empty list. Otherwise the result holds the pairs before the
    /// closing zero; there is none where the words end before a closing
    /// zero, or where a key is repeated.
    pub fn new(raw: Option<&[u64]>) -> (r: Option<Properties>)
        ensures
            raw is None ==> r is Some && r->0@ == Seq::<(u64, u64)>::empty()
                && !r->0.spec_is_given(),
            raw matches Some(words) ==> (match r {
                Some(p) => parse(words@) == Some(p@) && p.spec_is_given(),
                None => parse(words@) is None,
            }),
    {
        let words: &[u64] = match raw {
            None => {
                return Some(Properties::empty());
            },
            Some(w) => w,
        };
        let mut pairs: Vec<(u64, u64)> = Vec::new();
        let mut i: usize = 0;
        loop
            invariant
                raw == Some(words),
                i == 2 * pairs.len(),
                i <= words.len(),
                forall|j: int| 0 <= j < pairs.len() ==> (#[trigger] key_at(words@, j)) != 0,
                pairs@ == pairs_of(words@, pairs.len() as int),
                distinct_keys(pairs@),
            decreases words.len() - i,
        {
            let ghost n: int = pairs.len() as int;
            if i >= words.len() {
                return None;
            }
            let key: u64 = words[i];
            if key == 0 {
                proof {
                    assert(terminated_at(words@, n));
                    let k = choose|k: int| terminated_at(words@, k);
                    lemma_terminator_unique(words@, k, n);
                }
                return Some(Properties { pairs, given: true });
            }
            if i + 1 >= words.len() {
                return None;
            }
            if find_key(&pairs, key).is_some() {
                proof {
                    if exists|k: int| terminated_at(words@, k) {
                        let k = choose|k: int| terminated_at(words@, k);
                        let j = choose|j: int| 0 <= j < pairs@.len() && (#[trigger] pairs@[j]).0 == key;
                        let all = pairs_of(words@, k);
                        assert(all[j].0 == pairs@[j].0);
                        assert(all[n].0 == key);
                    }
                }
                return None;
            }
            let value: u64 = words[i + 1];
            pairs.push((key, value));
            i = i + 2;
        }
    }

    /// Whether the list holds no pair.
    pub fn is_empty(&self) -> (r: bool)
        ensures
            r == (self@.len() == 0),
    {
        self.pairs.len() == 0
    }

    /// The number of pairs.
    pub fn len(&self) -> (r: usize)
        ensures
            r == self@.len(),
    {
        self.pairs.len()
    }

    /// The `i`-th pair, key first.
    pub fn pair(&self, i: usize) -> (r: (u64, u64))
        requires
            i < self@.len(),
        ensures
            r == self@[i as int],
    {
        self.pairs[i]
    }

    /// Whether the list was given at all.
    pub fn is_given(&self) -> (r: bool)
        ensures
            r == self.spec_is_given(),
    {
        self.given
    }

    /// The value that goes with the key, if the list holds the key.
    pub fn get(&self, key: u64) -> (r: Option<u64>)
        ensures
            r == value_of(self@, key),
    {
        proof {
            use_type_invariant(self);
        }
        match find_key(&self.pairs, key) {
            Some(i) => {
                Some(self.pairs[i].1)
            },
            None => None,
        }
    }

    /// The words of the list as they were given: each pair, key first, and
    /// the closing zero; nothing at all where no list was given.
    pub fn raw_data(&self) -> (r: Vec<u64>)
        ensures
            !self.spec_is_given() ==> r@.len() == 0,
            self.spec_is_given() ==> terminated_at(r@, self@.len() as int) && pairs_of(
                r@,
                self@.len() as int,
            ) == self@ && r@.len() == 2 * self@.len() + 1,
    {
        let mut out: Vec<u64> = Vec::new();
        proof {
            use_type_invariant(self);
        }
        if !self.given {
            return out;
        }
        let mut i: usize = 0;
        while i < self.pairs.len()
            invariant
                i <= self.pairs.len(),
                out@.len() == 2 * i,
                forall|j: int|
                    0 <= j < i ==> (#[trigger] key_at(out@, j)) == self.pairs@[j].0,
                forall|j: int|
                    0 <= j < i ==> (#[trigger] value_at(out@, j)) == self.pairs@[j].1,
            decreases self.pairs.len() - i,
        {
            let ghost before = out@;
            let p: (u64, u64) = self.pairs[i];
            out.push(p.0);
            out.push(p.1);
            proof {
                assert forall|j: int| 0 <= j < i + 1 implies (#[trigger] key_at(out@, j))
                    == self.pairs@[j].0 by {
                    if j < i {
                        assert(key_at(before, j) == self.pairs@[j].0);
                    }
                }
                assert forall|j: int| 0 <= j < i + 1 implies (#[trigger] value_at(out@, j))
                    == self.pairs@[j].1 by {
                    if j < i {
                        assert(value_at(before, j) == self.pairs@[j].1);
                    }
                }
            }
            i = i + 1;
        }
        let ghost before = out@;
        out.push(0);
        proof {
            let n = self@.len() as int;
            assert forall|j: int| 0 <= j < n implies (#[trigger] key_at(out@, j)) != 0 by {
                assert(key_at(before, j) == self.pairs@[j].0);
            }
            assert(pairs_of(out@, n) =~= self@) by {
                assert forall|j: int| 0 <= j < n implies pairs_of(out@, n)[j] == self@[j] by {
                    assert(key_at(before, j) == self.pairs@[j].0);
                    assert(value_at(before, j) == self.pairs@[j].1);
                }
            }
        }
        out
    }
}

/// The index of the first pair with the given key.
fn find_key(pairs: &Vec<(u64, u64)>, key: u64) -> (r: Option<usize>)
    ensures
        r is Some <==> position_of(pairs@, key) is Some,
        r matches Some(i) ==> i < pairs@.len() && pairs@[i as int].0 == key,
{
    let mut i: usize = 0;
    while i < pairs.len()
        invariant
            i <= pairs.len(),
            forall|j: int| 0 <= j < i ==> (#[trigger] pairs@[j]).0 != key,
        decreases pairs.len() - i,
    {
        if pairs[i].0 == key {
            return Some(i);
        }
        i = i + 1;
    }
    None
}

} // verus!
