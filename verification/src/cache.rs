//! The decoded-sample cache for waveform display.
//!
//! Decoding a source file into raw samples is expensive, so it is done at
//! most once per cue per viewing session: the result is cached here, keyed
//! by cue id, separately from the sink used for playback. The cache is owned
//! by the engine and invalidation is explicit — when a cue's file path
//! changes, the caller drops the stale entry.

use vstd::prelude::*;

verus! {

/// One decoded audio source: the raw interleaved samples, the sample rate,
/// and the container's own duration when it declares one.
pub struct AudioData {
    /// Interleaved samples as decoded.
    pub samples: Vec<i16>,
    /// Frames per second.
    pub rate: u32,
    /// Duration declared by the source, in milliseconds, when known.
    pub duration_ms: Option<u64>,
}

/// The position of the entry with the given id, if one is there.
pub open spec fn find_key(s: Seq<(String, AudioData)>, id: Seq<char>) -> Option<int>
    decreases s.len(),
{
    if s.len() == 0 {
        None
    } else if s[0].0@ == id {
        Some(0)
    } else {
        match find_key(s.drop_first(), id) {
            Some(j) => Some(j + 1),
            None => None,
        }
    }
}

/// What `find_key` finds: the position of the sole matching entry, or the
/// fact that none matches.
pub proof fn lemma_find_key_spec(s: Seq<(String, AudioData)>, id: Seq<char>)
    ensures
        match find_key(s, id) {
            Some(j) => 0 <= j < s.len() && s[j].0@ == id && (forall|l: int|
                0 <= l < j ==> (#[trigger] s[l]).0@ != id),
            None => forall|l: int| 0 <= l < s.len() ==> (#[trigger] s[l]).0@ != id,
        },
    decreases s.len(),
{
    if s.len() > 0 && s[0].0@ != id {
        lemma_find_key_spec(s.drop_first(), id);
        assert forall|l: int| 1 <= l < s.len() implies s.drop_first()[l - 1] == s[l] by {}
    }
}

/// The session cache of decoded sources, keyed by cue id. At most one entry
/// per id.
pub struct DecodeCache {
    /// The cached decodes, in insertion order.
    pub entries: Vec<(String, AudioData)>,
}

impl DecodeCache {
    /// The cached entries, as a mathematical sequence.
    pub open spec fn view_entries(self) -> Seq<(String, AudioData)> {
        self.entries@
    }

    /// No two entries share an id.
    pub open spec fn wf(self) -> bool {
        forall|i: int, j: int|
            0 <= i < j < self.entries@.len() ==> (#[trigger] self.entries@[i]).0@ != (
            #[trigger] self.entries@[j]).0@
    }

    /// An empty cache.
    pub fn new() -> (r: DecodeCache)
        ensures
            r.view_entries().len() == 0,
            r.wf(),
    {
        DecodeCache { entries: Vec::new() }
    }

    /// How many sources are cached.
    pub fn len(&self) -> (r: usize)
        ensures
            r == self.view_entries().len(),
    {
        self.entries.len()
    }

    /// The cached decode for the cue with the given id, if one is there.
    pub fn get(&self, id: String) -> (r: Option<&AudioData>)
        ensures
            r matches Some(d) ==> (find_key(self.view_entries(), id@) matches Some(j) && *d
                == self.view_entries()[j].1),
            r is None ==> find_key(self.view_entries(), id@) is None,
    {
        proof {
            lemma_find_key_spec(self.entries@, id@);
        }
        let mut k: usize = 0;
        while k < self.entries.len()
            invariant
                k <= self.entries@.len(),
                forall|l: int| 0 <= l < k ==> (#[trigger] self.entries@[l]).0@ != id@,
                find_key(self.entries@, id@) matches Some(j) ==> 0 <= j < self.entries@.len()
                    && self.entries@[j].0@ == id@,
                find_key(self.entries@, id@) is None ==> forall|l: int|
                    0 <= l < self.entries@.len() ==> (#[trigger] self.entries@[l]).0@ != id@,
            decreases self.entries@.len() - k,
        {
            if self.entries[k].0 == id {
                proof {
                    lemma_find_key_spec(self.entries@, id@);
                }
                return Some(&self.entries[k].1);
            }
            k = k + 1;
        }
        None
    }

    /// Cache a decode under the cue's id, replacing any earlier decode of
    /// the same cue.
    pub fn insert(&mut self, id: String, data: AudioData)
        requires
            old(self).wf(),
        ensures
            final(self).wf(),
            match find_key(old(self).view_entries(), id@) {
                Some(j) => final(self).view_entries() == old(self).view_entries().update(
                    j,
                    (id, data),
                ),
                None => final(self).view_entries() == old(self).view_entries().push((id, data)),
            },
    {
        let ghost pre = self.entries@;
        let mut k: usize = 0;
        while k < self.entries.len()
            invariant
                k <= pre.len(),
                *self == *old(self),
                pre == old(self).entries@,
                forall|l: int| 0 <= l < k ==> (#[trigger] pre[l]).0@ != id@,
                forall|i: int, j: int|
                    0 <= i < j < pre.len() ==> (#[trigger] pre[i]).0@ != (#[trigger] pre[j]).0@,
            decreases pre.len() - k,
        {
            if self.entries[k].0 == id {
                proof {
                    lemma_find_key_spec(pre, id@);
                    let fk = find_key(pre, id@);
                    if fk is None {
                        assert(pre[k as int].0@ != id@);
                    }
                    let j = fk.unwrap();
                    if j < k {
                        assert(pre[j].0@ != id@);
                    }
                    if j > k {
                        assert(pre[k as int].0@ != id@);
                    }
                    assert(fk == Some(k as int));
                }
                self.entries[k] = (id, data);
                proof {
                    assert(self.entries@ =~= pre.update(k as int, (id, data)));
                }
                return ;
            }
            k = k + 1;
        }
        proof {
            lemma_find_key_spec(pre, id@);
            let fk = find_key(pre, id@);
            if fk is Some {
                assert(pre[fk.unwrap()].0@ != id@);
            }
        }
        self.entries.push((id, data));
        proof {
            assert forall|i: int, j: int|
                0 <= i < j < self.entries@.len() implies (#[trigger] self.entries@[i]).0@ != (
            #[trigger] self.entries@[j]).0@ by {
                if j == pre.len() {
                    assert(self.entries@[i] == pre[i]);
                    assert(self.entries@[j].0@ == id@);
                    assert(pre[i].0@ != id@);
                } else {
                    assert(self.entries@[i] == pre[i]);
                    assert(self.entries@[j] == pre[j]);
                }
            }
        }
    }

    /// Drop the cached decode for the cue with the given id, if one is
    /// there: the explicit invalidation for when the cue's file path
    /// changes.
    pub fn invalidate(&mut self, id: String)
        requires
            old(self).wf(),
        ensures
            final(self).wf(),
            match find_key(old(self).view_entries(), id@) {
                Some(j) => final(self).view_entries() == old(self).view_entries().remove(j),
                None => *final(self) == *old(self),
            },
    {
        let ghost pre = self.entries@;
        let mut k: usize = 0;
        while k < self.entries.len()
            invariant
                k <= pre.len(),
                *self == *old(self),
                pre == old(self).entries@,
                forall|l: int| 0 <= l < k ==> (#[trigger] pre[l]).0@ != id@,
                forall|i: int, j: int|
                    0 <= i < j < pre.len() ==> (#[trigger] pre[i]).0@ != (#[trigger] pre[j]).0@,
            decreases pre.len() - k,
        {
            if self.entries[k].0 == id {
                proof {
                    lemma_find_key_spec(pre, id@);
                    let fk = find_key(pre, id@);
                    if fk is None {
                        assert(pre[k as int].0@ != id@);
                    }
                    let j = fk.unwrap();
                    if j < k {
                        assert(pre[j].0@ != id@);
                    }
                    if j > k {
                        assert(pre[k as int].0@ != id@);
                    }
                    assert(fk == Some(k as int));
                }
                self.entries.remove(k);
                proof {
                    assert forall|i: int, j: int|
                        0 <= i < j < self.entries@.len() implies (#[trigger] self.entries@[i]).0@
                        != (#[trigger] self.entries@[j]).0@ by {
                        if j < k {
                            assert(self.entries@[i] == pre[i]);
                            assert(self.entries@[j] == pre[j]);
                        } else if i < k {
                            assert(self.entries@[i] == pre[i]);
                            assert(self.entries@[j] == pre[j + 1]);
                        } else {
                            assert(self.entries@[i] == pre[i + 1]);
                            assert(self.entries@[j] == pre[j + 1]);
                        }
                    }
                }
                return ;
            }
            k = k + 1;
        }
        proof {
            lemma_find_key_spec(pre, id@);
            let fk = find_key(pre, id@);
            if fk is Some {
                assert(pre[fk.unwrap()].0@ != id@);
            }
        }
    }
}

} // verus!
