//! The probes that were sent and are not yet settled, by id.
//!
//! The register is a list in which no id occurs twice. To contracts it is
//! the map from each id to the slot and the time of the send.

use crate::cycle::PendingProbe;
use vstd::prelude::*;

verus! {

/// Whether no two entries of `s` have the same id.
pub open spec fn distinct_ids(s: Seq<PendingProbe>) -> bool {
    forall|i: int, j: int| 0 <= i < j < s.len() ==> s[i].id@ != s[j].id@
}

/// Whether `s` has an entry with the id `id`.
pub open spec fn holds(s: Seq<PendingProbe>, id: Seq<char>) -> bool {
    exists|i: int| 0 <= i < s.len() && s[i].id@ == id
}

/// The place of an entry with the id `id` in `s`.
pub open spec fn place_of(s: Seq<PendingProbe>, id: Seq<char>) -> int {
    choose|i: int| 0 <= i < s.len() && s[i].id@ == id
}

/// The map that the entries `s` stand for.
pub open spec fn as_map(s: Seq<PendingProbe>) -> Map<Seq<char>, (u64, i64)> {
    Map::new(
        |id: Seq<char>| holds(s, id),
        |id: Seq<char>| (s[place_of(s, id)].slot_sent, s[place_of(s, id)].send_time),
    )
}

proof fn lemma_entry(s: Seq<PendingProbe>, i: int)
    requires
        distinct_ids(s),
        0 <= i < s.len(),
    ensures
        holds(s, s[i].id@),
        place_of(s, s[i].id@) == i,
        as_map(s).dom().contains(s[i].id@),
        as_map(s)[s[i].id@] == (s[i].slot_sent, s[i].send_time),
{
    let id = s[i].id@;
    assert(0 <= i < s.len() && s[i].id@ == id);
    let k = place_of(s, id);
    assert(0 <= k < s.len() && s[k].id@ == id);
    if k < i {
        assert(s[k].id@ != s[i].id@);
    } else if i < k {
        assert(s[i].id@ != s[k].id@);
    }
}

/// The register of pending probes.
#[derive(Clone, Debug)]
pub struct PendingProbes {
    probes: Vec<PendingProbe>,
}

impl View for PendingProbes {
    type V = Map<Seq<char>, (u64, i64)>;

    closed spec fn view(&self) -> Map<Seq<char>, (u64, i64)> {
        as_map(self.probes@)
    }
}

impl PendingProbes {
    /// No id occurs twice. Every register that this module hands out is
    /// well formed.
    pub closed spec fn wf(&self) -> bool {
        distinct_ids(self.probes@)
    }

    /// An empty register.
    pub fn new() -> (register: Self)
        ensures
            register.wf(),
            register@ == Map::<Seq<char>, (u64, i64)>::empty(),
    {
        let register = PendingProbes { probes: Vec::new() };
        assert(register@ =~= Map::<Seq<char>, (u64, i64)>::empty());
        register
    }

    /// Where the entry with the id `id` stands, if there is one.
    fn position(&self, id: &String) -> (place: Option<usize>)
        ensures
            match place {
                Some(i) => i < self.probes@.len() && self.probes@[i as int].id@ == id@,
                None => !holds(self.probes@, id@),
            },
    {
        let mut i: usize = 0;
        while i < self.probes.len()
            invariant
                i <= self.probes@.len(),
                forall|k: int| 0 <= k < i ==> self.probes@[k].id@ != id@,
            decreases self.probes@.len() - i,
        {
            if self.probes[i].id == *id {
                return Some(i);
            }
            i += 1;
        }
        None
    }

    /// The number of pending probes.
    pub fn len(&self) -> (n: usize)
        requires
            self.wf(),
        ensures
            n == self@.dom().len(),
            self@.dom().finite(),
    {
        proof {
            lemma_len(self.probes@);
        }
        self.probes.len()
    }

    /// Whether a probe with the id `id` is pending.
    pub fn contains(&self, id: &String) -> (found: bool)
        ensures
            found == self@.dom().contains(id@),
    {
        self.position(id).is_some()
    }

    /// The slot and the time of the send of the probe with the id `id`.
    pub fn get(&self, id: &String) -> (entry: Option<(u64, i64)>)
        requires
            self.wf(),
        ensures
            entry == if self@.dom().contains(id@) {
                Some(self@[id@])
            } else {
                None
            },
    {
        match self.position(id) {
            Some(i) => {
                proof {
                    lemma_entry(self.probes@, i as int);
                }
                Some((self.probes[i].slot_sent, self.probes[i].send_time))
            },
            None => None,
        }
    }

    /// Records `probe`. An entry with the same id is replaced, and what it
    /// held is returned.
    pub fn insert(&mut self, probe: PendingProbe) -> (replaced: Option<(u64, i64)>)
        requires
            old(self).wf(),
        ensures
            final(self).wf(),
            final(self)@ == old(self)@.insert(probe.id@, (probe.slot_sent, probe.send_time)),
            replaced == if old(self)@.dom().contains(probe.id@) {
                Some(old(self)@[probe.id@])
            } else {
                None
            },
    {
        let ghost before = self.probes@;
        let ghost id = probe.id@;
        let ghost entry = (probe.slot_sent, probe.send_time);
        match self.position(&probe.id) {
            Some(i) => {
                proof {
                    lemma_entry(before, i as int);
                }
                let replaced = (self.probes[i].slot_sent, self.probes[i].send_time);
                self.probes[i].slot_sent = probe.slot_sent;
                self.probes[i].send_time = probe.send_time;
                proof {
                    let after = self.probes@;
                    assert(after.len() == before.len());
                    assert(forall|k: int| 0 <= k < after.len() ==> after[k].id@ == before[k].id@);
                    assert(distinct_ids(after));
                    assert forall|key: Seq<char>| holds(after, key) == holds(before, key) by {
                        if holds(before, key) {
                            let k = place_of(before, key);
                            assert(after[k].id@ == key);
                        }
                        if holds(after, key) {
                            let k = place_of(after, key);
                            assert(before[k].id@ == key);
                        }
                    }
                    assert forall|key: Seq<char>| holds(after, key) implies as_map(after)[key]
                        == as_map(before).insert(id, entry)[key] by {
                        let k = place_of(after, key);
                        lemma_entry(after, k);
                        lemma_entry(before, k);
                    }
                    assert(as_map(after) =~= as_map(before).insert(id, entry));
                }
                Some(replaced)
            },
            None => {
                self.probes.push(probe);
                proof {
                    let after = self.probes@;
                    assert(forall|k: int| 0 <= k < before.len() ==> after[k] == before[k]);
                    assert(distinct_ids(after)) by {
                        assert forall|a: int, b: int| 0 <= a < b < after.len() implies after[a].id@
                            != after[b].id@ by {
                            if b == before.len() {
                                assert(before[a].id@ != id);
                            }
                        }
                    }
                    assert forall|key: Seq<char>| holds(after, key) == (holds(before, key) || key
                        == id) by {
                        if holds(before, key) {
                            let k = place_of(before, key);
                            assert(after[k].id@ == key);
                        }
                        if key == id {
                            assert(after[before.len() as int].id@ == key);
                        }
                        if holds(after, key) && key != id {
                            let k = place_of(after, key);
                            assert(before[k].id@ == key);
                        }
                    }
                    assert forall|key: Seq<char>| holds(after, key) implies as_map(after)[key]
                        == as_map(before).insert(id, entry)[key] by {
                        let k = place_of(after, key);
                        lemma_entry(after, k);
                        if key != id {
                            lemma_entry(before, k);
                        }
                    }
                    assert(as_map(after) =~= as_map(before).insert(id, entry));
                }
                None
            },
        }
    }

    /// Forgets the probe with the id `id`, and returns what was recorded of
    /// it.
    pub fn remove(&mut self, id: &String) -> (removed: Option<(u64, i64)>)
        requires
            old(self).wf(),
        ensures
            final(self).wf(),
            final(self)@ == old(self)@.remove(id@),
            removed == if old(self)@.dom().contains(id@) {
                Some(old(self)@[id@])
            } else {
                None
            },
    {
        let ghost before = self.probes@;
        match self.position(id) {
            Some(i) => {
                proof {
                    lemma_entry(before, i as int);
                }
                let gone = self.probes.remove(i);
                proof {
                    let after = self.probes@;
                    assert(after =~= before.remove(i as int));
                    assert(forall|k: int| 0 <= k < i ==> after[k] == before[k]);
                    assert(forall|k: int| i <= k < after.len() ==> after[k] == before[k + 1]);
                    assert(distinct_ids(after));
                    assert forall|key: Seq<char>| holds(after, key) == (holds(before, key) && key
                        != id@) by {
                        if holds(before, key) && key != id@ {
                            let k = place_of(before, key);
                            if k < i {
                                assert(after[k].id@ == key);
                            } else {
                                assert(after[k - 1].id@ == key);
                            }
                        }
                        if holds(after, key) {
                            let k = place_of(after, key);
                            if k < i {
                                assert(before[k].id@ == key);
                                assert(before[k].id@ != before[i as int].id@);
                            } else {
                                assert(before[k + 1].id@ == key);
                                assert(before[i as int].id@ != before[k + 1].id@);
                            }
                        }
                    }
                    assert forall|key: Seq<char>| holds(after, key) implies as_map(after)[key]
                        == as_map(before).remove(id@)[key] by {
                        let k = place_of(after, key);
                        lemma_entry(after, k);
                        if k < i {
                            lemma_entry(before, k);
                        } else {
                            lemma_entry(before, k + 1);
                        }
                    }
                    assert(as_map(after) =~= as_map(before).remove(id@));
                }
                Some((gone.slot_sent, gone.send_time))
            },
            None => {
                assert(as_map(before) =~= as_map(before).remove(id@));
                None
            },
        }
    }
}

proof fn lemma_len(s: Seq<PendingProbe>)
    requires
        distinct_ids(s),
    ensures
        as_map(s).dom().finite(),
        as_map(s).dom().len() == s.len(),
    decreases s.len(),
{
    if s.len() == 0 {
        assert(as_map(s).dom() =~= Set::<Seq<char>>::empty());
    } else {
        let head = s.drop_last();
        let id = s.last().id@;
        lemma_len(head);
        assert forall|key: Seq<char>| as_map(s).dom().contains(key) == as_map(head).dom().insert(
            id,
        ).contains(key) by {
            if holds(head, key) {
                let k = place_of(head, key);
                assert(s[k].id@ == key);
            }
            if key == id {
                assert(s[s.len() - 1].id@ == key);
            }
            if holds(s, key) && key != id {
                let k = place_of(s, key);
                assert(head[k].id@ == key);
            }
        }
        assert(as_map(s).dom() =~= as_map(head).dom().insert(id));
        assert(!as_map(head).dom().contains(id)) by {
            if holds(head, id) {
                let k = place_of(head, id);
                assert(s[k].id@ != s[s.len() - 1].id@);
            }
        }
    }
}

} // verus!
