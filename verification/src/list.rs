//! The ordered cue list: id assignment, lookup, append and reorder.
//!
//! Insertion order is the playback order. Ids are free text; the numeric
//! ones drive fresh-id assignment. Uniqueness of ids is a declared intent
//! whose enforcement is a deliberate pass-through stub, kept as such.

use vstd::prelude::*;

use crate::ids::spec_id_num;
use crate::multitype::MultitypeCue;

verus! {

/// The numeric value a cue contributes to fresh-id assignment: its id's
/// number, or zero when the id is not numeric.
pub open spec fn id_num_or_zero(c: MultitypeCue) -> nat {
    match spec_id_num(c.spec_id()) {
        Some(n) => n as nat,
        None => 0,
    }
}

/// The largest numeric id among the cues, taking non-numeric ids as zero.
pub open spec fn spec_max_id(s: Seq<MultitypeCue>) -> nat
    decreases s.len(),
{
    if s.len() == 0 {
        0
    } else {
        vstd::math::max(spec_max_id(s.drop_last()) as int, id_num_or_zero(s.last()) as int) as nat
    }
}

/// The maximum over a prefix never exceeds the maximum over the whole list.
proof fn lemma_max_id_take(s: Seq<MultitypeCue>, k: int)
    requires
        0 <= k <= s.len(),
    ensures
        spec_max_id(s.take(k)) <= spec_max_id(s),
    decreases s.len() - k,
{
    if k == s.len() {
        assert(s.take(k) =~= s);
    } else {
        assert(s.take(k + 1).drop_last() =~= s.take(k));
        assert(s.take(k + 1).last() == s[k]);
        lemma_max_id_take(s, k + 1);
    }
}

/// Each cue's numeric id is bounded by the list maximum.
proof fn lemma_max_id_elem(s: Seq<MultitypeCue>, k: int)
    requires
        0 <= k < s.len(),
    ensures
        id_num_or_zero(s[k]) <= spec_max_id(s),
    decreases s.len(),
{
    if k == s.len() - 1 {
    } else {
        assert(s.drop_last()[k] == s[k]);
        lemma_max_id_elem(s.drop_last(), k);
    }
}

/// The ordered collection of cues that defines the show order.
pub struct CueList {
    /// The cues, in playback order.
    pub list: Vec<MultitypeCue>,
}

impl CueList {
    /// An empty cue list.
    pub fn new() -> (r: CueList)
        ensures
            r.list@.len() == 0,
    {
        CueList { list: Vec::new() }
    }

    /// How many cues the list holds.
    pub fn len(&self) -> (r: usize)
        ensures
            r == self.list@.len(),
    {
        self.list.len()
    }

    /// The cue at a valid position.
    pub fn get(&self, i: usize) -> (r: &MultitypeCue)
        requires
            i < self.list@.len(),
        ensures
            *r == self.list@[i as int],
    {
        &self.list[i]
    }

    /// Append a cue and report its position. The consistency check is a
    /// pass-through stub, so an append is never actually rejected; the
    /// rejection path is kept for the intended id-collision check.
    pub fn add(&mut self, new_cue: MultitypeCue) -> (r: Result<usize, ()>)
        ensures
            r == Ok::<usize, ()>(old(self).list@.len() as usize),
            final(self).list@ == old(self).list@.push(new_cue),
    {
        if self.consistency_checks_add(&new_cue) {
            self.list.push(new_cue);
            Ok(self.list.len() - 1)
        } else {
            Err(())
        }
    }

    /// A fresh id: one past the largest numeric id in the list, counting
    /// non-numeric ids as zero. Strictly greater than every numeric id
    /// present; non-numeric ids never influence it.
    pub fn get_new_cue_id(&self) -> (r: u64)
        requires
            spec_max_id(self.list@) < u64::MAX,
        ensures
            r == spec_max_id(self.list@) + 1,
            forall|k: int|
                0 <= k < self.list@.len() ==> (spec_id_num(
                    #[trigger] self.list@[k].spec_id(),
                ) matches Some(n) ==> n < r),
    {
        let mut largest: u64 = 0;
        let mut k: usize = 0;
        while k < self.list.len()
            invariant
                k <= self.list@.len(),
                spec_max_id(self.list@) < u64::MAX,
                largest == spec_max_id(self.list@.take(k as int)),
            decreases self.list@.len() - k,
        {
            let n: u64 = match self.list[k].get_id_num() {
                Some(n) => n,
                None => 0,
            };
            proof {
                assert(self.list@.take(k + 1).drop_last() =~= self.list@.take(k as int));
                assert(self.list@.take(k + 1).last() == self.list@[k as int]);
                lemma_max_id_take(self.list@, k + 1);
            }
            if n > largest {
                largest = n;
            }
            k = k + 1;
        }
        proof {
            assert(self.list@.take(self.list@.len() as int) =~= self.list@);
            assert forall|j: int| 0 <= j < self.list@.len() implies (spec_id_num(
                #[trigger] self.list@[j].spec_id(),
            ) matches Some(n) ==> n < spec_max_id(self.list@) + 1) by {
                lemma_max_id_elem(self.list@, j);
            }
        }
        largest + 1
    }

    /// The first cue whose id equals `id`, if any.
    pub fn get_cue(&self, id: String) -> (r: Option<&MultitypeCue>)
        ensures
            r matches Some(c) ==> exists|j: int|
                {
                    &&& 0 <= j < self.list@.len()
                    &&& (#[trigger] self.list@[j]).spec_id() == id@
                    &&& *c == self.list@[j]
                    &&& forall|l: int| 0 <= l < j ==> (#[trigger] self.list@[l]).spec_id() != id@
                },
            r is None ==> forall|j: int|
                0 <= j < self.list@.len() ==> (#[trigger] self.list@[j]).spec_id() != id@,
    {
        let mut k: usize = 0;
        while k < self.list.len()
            invariant
                k <= self.list@.len(),
                forall|l: int| 0 <= l < k ==> (#[trigger] self.list@[l]).spec_id() != id@,
            decreases self.list@.len() - k,
        {
            if self.list[k].get_id() == id {
                return Some(&self.list[k]);
            }
            k = k + 1;
        }
        None
    }

    /// The first cue whose id equals `id`, mutably, if any: the caller's
    /// edit through the reference is the one change to the list.
    pub fn get_cue_mut(&mut self, id: String) -> (r: Option<&mut MultitypeCue>)
        ensures
            r matches Some(c) ==> exists|j: int|
                {
                    &&& 0 <= j < old(self).list@.len()
                    &&& (#[trigger] old(self).list@[j]).spec_id() == id@
                    &&& forall|l: int|
                        0 <= l < j ==> (#[trigger] old(self).list@[l]).spec_id() != id@
                    &&& *c == old(self).list@[j]
                    &&& final(self).list@ == old(self).list@.update(j, *final(c))
                },
            r is None ==> *final(self) == *old(self) && forall|j: int|
                0 <= j < old(self).list@.len() ==> (#[trigger] old(self).list@[j]).spec_id() != id@,
    {
        let mut k: usize = 0;
        while k < self.list.len()
            invariant
                k <= self.list@.len(),
                *self == *old(self),
                forall|l: int| 0 <= l < k ==> (#[trigger] self.list@[l]).spec_id() != id@,
            decreases self.list@.len() - k,
        {
            if self.list[k].get_id() == id {
                return Some(&mut self.list[k]);
            }
            k = k + 1;
        }
        None
    }

    /// Relocate the cue at `mve` to position `to`: the elements strictly
    /// between the two positions shift by one slot, every other cue keeps
    /// its relative order. A no-op when the positions coincide. Out-of-range
    /// positions are the caller's programming error, not a recoverable
    /// condition.
    pub fn move_cue(&mut self, mve: usize, to: usize)
        requires
            mve < old(self).list@.len(),
            to < old(self).list@.len(),
        ensures
            final(self).list@ == old(self).list@.remove(mve as int).insert(
                to as int,
                old(self).list@[mve as int],
            ),
    {
        if mve != to {
            let cue = self.list.remove(mve);
            self.list.insert(to, cue);
        } else {
            proof {
                assert(self.list@.remove(mve as int).insert(to as int, self.list@[mve as int])
                    =~= self.list@);
            }
        }
    }

    /// The admission check an appended cue must pass. Intended to reject id collisions
    /// (and, later, dangling references); the underlying check is a
    /// pass-through stub, so today it accepts every cue.
    pub fn consistency_checks_add(&self, new_cue: &MultitypeCue) -> (r: bool)
        ensures
            r == true,
    {
        self.id_uniqueness_check(&new_cue.get_id())
    }

    /// The id-uniqueness check, a stub that accepts everything: duplicate
    /// ids are possible and uniqueness stays advisory.
    fn id_uniqueness_check(&self, _new_id: &String) -> (r: bool)
        ensures
            r == true,
    {
        true
    }
}

/// Reordering law: moving the cue at `mve` to `to` yields a permutation of
/// the original list that holds the moved cue at `to` and keeps every other
/// cue in its original relative order (removing the moved cue from either
/// list leaves the same sequence); moving a cue onto its own position
/// changes nothing.
pub proof fn lemma_move_cue_permutation(s: Seq<MultitypeCue>, mve: int, to: int)
    requires
        0 <= mve < s.len(),
        0 <= to < s.len(),
    ensures
        ({
            let t = s.remove(mve).insert(to, s[mve]);
            &&& t.len() == s.len()
            &&& t[to] == s[mve]
            &&& t.remove(to) == s.remove(mve)
            &&& t.to_multiset() == s.to_multiset()
            &&& mve == to ==> t == s
        }),
{
    let x = s[mve];
    let u = s.remove(mve);
    let t = u.insert(to, x);
    assert(t.remove(to) =~= u);
    vstd::seq_lib::to_multiset_remove(s, mve);
    vstd::seq_lib::to_multiset_insert(u, to, x);
    vstd::seq_lib::to_multiset_contains(s, x);
    assert(s.contains(x));
    assert(t.to_multiset() =~= s.to_multiset());
    if mve == to {
        assert(t =~= s);
    }
}

} // verus!
