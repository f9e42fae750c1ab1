//! The cache store: one outcome per identifier, and what the entries weigh.

use crate::png::Picture;
use vstd::prelude::*;
use vstd::utf8::encode_utf8;

verus! {

/// The result of a finished decode attempt.
pub enum Outcome {
    /// The decoded image.
    Decoded(Picture),
    /// Why the image could not be decoded.
    Failed(String),
}

impl Outcome {
    /// Bytes the entry accounts for: four per pixel for an image, the
    /// UTF-8 length of the message for a failure.
    pub open spec fn spec_size(&self) -> nat {
        match self {
            Outcome::Decoded(p) => p.spec_byte_len(),
            Outcome::Failed(m) => encode_utf8(m@).len(),
        }
    }

    pub fn byte_len(&self) -> (r: usize)
        ensures
            r == self.spec_size(),
    {
        match self {
            Outcome::Decoded(p) => p.byte_len(),
            Outcome::Failed(m) => m.as_str().as_bytes().len(),
        }
    }

    /// Another handle to the same outcome: the image is shared, the message copied.
    pub fn share(&self) -> (r: Outcome)
        ensures
            r == *self,
    {
        match self {
            Outcome::Decoded(p) => Outcome::Decoded(p.share()),
            Outcome::Failed(m) => Outcome::Failed(m.clone()),
        }
    }
}

/// The map that a list of entries stands for; a later entry wins.
pub open spec fn map_of(s: Seq<(Seq<char>, Outcome)>) -> Map<Seq<char>, Outcome>
    decreases s.len(),
{
    if s.len() == 0 {
        Map::empty()
    } else {
        map_of(s.drop_last()).insert(s.last().0, s.last().1)
    }
}

/// Sum of the sizes of the entries.
pub open spec fn total_of(s: Seq<(Seq<char>, Outcome)>) -> nat
    decreases s.len(),
{
    if s.len() == 0 {
        0
    } else {
        total_of(s.drop_last()) + s.last().1.spec_size()
    }
}

/// The (identifier, outcome) pairs of a map.
pub open spec fn entry_set(m: Map<Seq<char>, Outcome>) -> Set<(Seq<char>, Outcome)> {
    Set::new(|e: (Seq<char>, Outcome)| m.contains_key(e.0) && m[e.0] == e.1)
}

pub open spec fn add_size() -> spec_fn(nat, (Seq<char>, Outcome)) -> nat {
    |acc: nat, e: (Seq<char>, Outcome)| acc + e.1.spec_size()
}

/// Sum of the sizes of the outcomes in a map.
pub open spec fn map_total(m: Map<Seq<char>, Outcome>) -> nat {
    entry_set(m).fold(0nat, add_size())
}

pub open spec fn keys_unique(s: Seq<(Seq<char>, Outcome)>) -> bool {
    forall|i: int, j: int| 0 <= i < j < s.len() ==> s[i].0 != s[j].0
}

proof fn lemma_map_of_keys(s: Seq<(Seq<char>, Outcome)>, k: Seq<char>)
    requires
        keys_unique(s),
    ensures
        map_of(s).contains_key(k) <==> exists|i: int| 0 <= i < s.len() && s[i].0 == k,
        forall|i: int| 0 <= i < s.len() && s[i].0 == k ==> map_of(s)[k] == s[i].1,
    decreases s.len(),
{
    if s.len() > 0 {
        let t = s.drop_last();
        lemma_map_of_keys(t, k);
        if map_of(t).contains_key(k) {
            let i = choose|i: int| 0 <= i < t.len() && t[i].0 == k;
            assert(s[i].0 == k);
        }
        if exists|i: int| 0 <= i < s.len() && s[i].0 == k {
            let i = choose|i: int| 0 <= i < s.len() && s[i].0 == k;
            if i < t.len() {
                assert(t[i].0 == k);
            }
        }
    }
}

proof fn lemma_total_is_map_total(s: Seq<(Seq<char>, Outcome)>)
    requires
        keys_unique(s),
    ensures
        entry_set(map_of(s)).finite(),
        total_of(s) == map_total(map_of(s)),
    decreases s.len(),
{
    broadcast use vstd::set::fold::lemma_fold_insert, vstd::set::fold::lemma_fold_empty;

    if s.len() == 0 {
        assert(entry_set(map_of(s)) =~= Set::empty());
    } else {
        let t = s.drop_last();
        let e = s.last();
        lemma_total_is_map_total(t);
        lemma_map_of_keys(t, e.0);
        assert(!map_of(t).contains_key(e.0));
        assert(entry_set(map_of(s)) =~= entry_set(map_of(t)).insert(e));
        assert(!entry_set(map_of(t)).contains(e));
        assert(vstd::set::fold::is_fun_commutative(add_size()));
    }
}

proof fn lemma_remove(s: Seq<(Seq<char>, Outcome)>, i: int)
    requires
        keys_unique(s),
        0 <= i < s.len(),
    ensures
        keys_unique(s.remove(i)),
        map_of(s.remove(i)) == map_of(s).remove(s[i].0),
        total_of(s.remove(i)) + s[i].1.spec_size() == total_of(s),
    decreases s.len(),
{
    let r = s.remove(i);
    let t = s.drop_last();
    if i == s.len() - 1 {
        assert(r =~= t);
        lemma_map_of_keys(t, s[i].0);
        assert(map_of(t) =~= map_of(s).remove(s[i].0));
    } else {
        lemma_remove(t, i);
        assert(r.drop_last() =~= t.remove(i));
        assert(r.last() == s.last());
        assert(map_of(r) =~= map_of(s).remove(s[i].0));
    }
}

/// The cache store: identifiers with the outcome of their finished decode.
pub struct CacheStore {
    entries: Vec<(String, Outcome)>,
}

impl CacheStore {
    /// Each identifier is held at most once.
    pub closed spec fn wf(&self) -> bool {
        keys_unique(self.entries())
    }

    /// The entries in the order they are held.
    pub closed spec fn entries(&self) -> Seq<(Seq<char>, Outcome)> {
        self.entries@.map_values(|e: (String, Outcome)| (e.0@, e.1))
    }

    /// Identifier to outcome.
    pub open spec fn view(&self) -> Map<Seq<char>, Outcome> {
        map_of(self.entries())
    }

    /// What the entries weigh in all.
    pub open spec fn total(&self) -> nat {
        total_of(self.entries())
    }

    /// The weight of the entries is the sum of the sizes of the outcomes
    /// in the map.
    pub proof fn lemma_total(&self)
        requires
            self.wf(),
        ensures
            entry_set(self@).finite(),
            self.total() == map_total(self@),
    {
        lemma_total_is_map_total(self.entries());
    }

    pub fn new() -> (r: CacheStore)
        ensures
            r.wf(),
            r@ == Map::<Seq<char>, Outcome>::empty(),
            r.total() == 0,
    {
        let r = CacheStore { entries: Vec::new() };
        assert(r.entries() =~= Seq::empty());
        r
    }

    fn position(&self, id: &String) -> (r: Option<usize>)
        ensures
            match r {
                Some(i) => i < self.entries().len() && self.entries()[i as int].0 == id@,
                None => forall|j: int| 0 <= j < self.entries().len() ==> self.entries()[j].0 != id@,
            },
    {
        let mut i: usize = 0;
        while i < self.entries.len()
            invariant
                i <= self.entries@.len(),
                forall|j: int| 0 <= j < i ==> self.entries()[j].0 != id@,
            decreases self.entries@.len() - i,
        {
            if self.entries[i].0 == *id {
                return Some(i);
            }
            i = i + 1;
        }
        None
    }

    /// The outcome held for `id`, if any, as a shared handle.
    pub fn lookup(&self, id: &str) -> (r: Option<Outcome>)
        requires
            self.wf(),
        ensures
            r == (if self@.contains_key(id@) {
                Some(self@[id@])
            } else {
                None
            }),
    {
        proof {
            lemma_map_of_keys(self.entries(), id@);
        }
        let key = id.to_owned();
        match self.position(&key) {
            Some(i) => Some(self.entries[i].1.share()),
            None => None,
        }
    }

    /// Evicts the entry for `id`; nothing happens when there is none.
    pub fn remove(&mut self, id: &str)
        requires
            old(self).wf(),
        ensures
            final(self).wf(),
            final(self)@ == old(self)@.remove(id@),
            old(self)@.contains_key(id@) ==> final(self).total() + old(self)@[id@].spec_size()
                == old(self).total(),
            !old(self)@.contains_key(id@) ==> final(self).total() == old(self).total(),
    {
        proof {
            lemma_map_of_keys(self.entries(), id@);
        }
        let key = id.to_owned();
        match self.position(&key) {
            Some(i) => {
                proof {
                    lemma_remove(self.entries(), i as int);
                }
                let _ = self.entries.remove(i);
                assert(self.entries() =~= old(self).entries().remove(i as int));
            },
            None => {
                assert(old(self)@.remove(id@) =~= old(self)@);
            },
        }
    }

    /// Creates or replaces the entry for `id`.
    pub fn insert(&mut self, id: &str, outcome: Outcome)
        requires
            old(self).wf(),
        ensures
            final(self).wf(),
            final(self)@ == old(self)@.insert(id@, outcome),
            final(self).total() + (if old(self)@.contains_key(id@) {
                old(self)@[id@].spec_size()
            } else {
                0
            }) == old(self).total() + outcome.spec_size(),
    {
        self.remove(id);
        proof {
            lemma_map_of_keys(self.entries(), id@);
        }
        let ghost before = self.entries();
        self.entries.push((id.to_owned(), outcome));
        assert(self.entries() =~= before.push((id@, outcome)));
        assert(keys_unique(self.entries()));
        assert(before.push((id@, outcome)).drop_last() =~= before);
        assert(final(self)@ =~= old(self)@.insert(id@, outcome));
    }

    /// Evicts every entry.
    pub fn clear(&mut self)
        ensures
            final(self).wf(),
            final(self)@ == Map::<Seq<char>, Outcome>::empty(),
            final(self).total() == 0,
    {
        self.entries.clear();
        assert(self.entries() =~= Seq::empty());
    }

    /// What the entries weigh in all, saturated at `usize::MAX`.
    pub fn total_bytes(&self) -> (r: usize)
        ensures
            r == if self.total() <= usize::MAX {
                self.total()
            } else {
                usize::MAX as nat
            },
    {
        let mut sum: usize = 0;
        let mut i: usize = 0;
        while i < self.entries.len()
            invariant
                i <= self.entries@.len(),
                sum == if total_of(self.entries().take(i as int)) <= usize::MAX {
                    total_of(self.entries().take(i as int))
                } else {
                    usize::MAX as nat
                },
            decreases self.entries@.len() - i,
        {
            let n = self.entries[i].1.byte_len();
            assert(self.entries().take(i + 1).drop_last() =~= self.entries().take(i as int));
            sum = sum.saturating_add(n);
            i = i + 1;
        }
        assert(self.entries().take(i as int) =~= self.entries());
        sum
    }
}

} // verus!
