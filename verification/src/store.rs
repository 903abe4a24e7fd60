//! Latest-state entity store: a last-write-wins map keyed by entity id,
//! beside an append-only history log of every accepted entity.

use vstd::prelude::*;

use crate::component::Component;

verus! {

/// The id-to-latest-entity map that a sequence of accepted writes leaves
/// behind: later writes win, regardless of any timestamp ordering.
pub open spec fn latest_of(s: Seq<Component>) -> Map<Seq<char>, Component>
    decreases s.len(),
{
    if s.len() == 0 {
        Map::empty()
    } else {
        latest_of(s.drop_last()).insert(s.last().id@, s.last())
    }
}

/// No two entries share an id.
pub open spec fn distinct_ids(s: Seq<Component>) -> bool {
    forall|i: int, j: int| 0 <= i < j < s.len() ==> s[i].id@ != s[j].id@
}

/// The store owns two structures with different lifetimes: the latest map
/// (held as a vector with pairwise-distinct ids) and the history log, both
/// created empty and never destroyed before the process ends.
pub struct Store {
    latest: Vec<Component>,
    history: Vec<Component>,
}

impl Store {
    /// Every entity ever accepted, in acceptance order; never trimmed,
    /// never reordered.
    pub closed spec fn history(self) -> Seq<Component> {
        self.history@
    }

    pub closed spec fn wf(self) -> bool {
        &&& distinct_ids(self.latest@)
        &&& latest_of(self.latest@) == latest_of(self.history@)
    }

    pub fn new() -> (r: Store)
        ensures
            r.wf(),
            r.history() == Seq::<Component>::empty(),
    {
        Store { latest: Vec::new(), history: Vec::new() }
    }

    /// Writes `c` under `c.id`, replacing any prior value, and appends `c`
    /// to the history log. The store never rejects a well-formed entity.
    pub fn upsert(&mut self, c: Component)
        requires
            old(self).wf(),
        ensures
            final(self).wf(),
            final(self).history() == old(self).history().push(c),
    {
        let ghost old_latest = self.latest@;
        let mut i: usize = 0;
        let mut found: bool = false;
        while i < self.latest.len() && !found
            invariant
                0 <= i <= self.latest@.len(),
                self.latest@ == old_latest,
                found ==> i < self.latest@.len() && self.latest@[i as int].id@ == c.id@,
                !found ==> forall|j: int| 0 <= j < i ==> self.latest@[j].id@ != c.id@,
            decreases self.latest@.len() - i + (if found { 0int } else { 1int }),
        {
            if self.latest[i].id == c.id {
                found = true;
            } else {
                i += 1;
            }
        }
        if found {
            let dup = c.clone();
            proof {
                lemma_latest_of_update(self.latest@, i as int, c);
            }
            self.latest.set(i, dup);
        } else {
            let dup = c.clone();
            self.latest.push(dup);
            proof {
                assert(self.latest@.drop_last() == old_latest);
                assert(self.latest@.last() == c);
                assert(latest_of(self.latest@) == latest_of(old_latest).insert(c.id@, c));
            }
        }
        self.history.push(c);
        proof {
            assert(self.history@.drop_last() == old(self).history@);
            assert(self.history@.last() == c);
            assert(latest_of(self.history@) == latest_of(old(self).history@).insert(c.id@, c));
        }
    }

    /// An independent copy of the current latest-map values: one entry per
    /// distinct id ever written, holding the last-written value for it.
    pub fn snapshot(&self) -> (r: Vec<Component>)
        requires
            self.wf(),
        ensures
            distinct_ids(r@),
            latest_of(r@) == latest_of(self.history()),
    {
        let mut out: Vec<Component> = Vec::new();
        let mut i: usize = 0;
        while i < self.latest.len()
            invariant
                0 <= i <= self.latest@.len(),
                out@ == self.latest@.subrange(0, i as int),
            decreases self.latest@.len() - i,
        {
            out.push(self.latest[i].clone());
            i += 1;
        }
        proof {
            assert(out@ == self.latest@);
        }
        out
    }

    /// The current length of the history log: the total number of accepted
    /// writes so far, duplicate ids included.
    pub fn history_count(&self) -> (r: usize)
        ensures
            r == self.history().len(),
    {
        self.history.len()
    }
}

/// The set of ids that a write sequence mentions.
pub open spec fn ids_of(s: Seq<Component>) -> Set<Seq<char>> {
    Set::new(|id: Seq<char>| exists|i: int| 0 <= i < s.len() && s[i].id@ == id)
}

/// The latest map holds exactly the ids that were ever written: no entry
/// appears for an id no write mentioned, and none ever written disappears.
pub proof fn lemma_latest_of_dom(s: Seq<Component>)
    ensures
        latest_of(s).dom() =~= ids_of(s),
    decreases s.len(),
{
    if s.len() > 0 {
        lemma_latest_of_dom(s.drop_last());
        assert forall|id: Seq<char>|
            ids_of(s).contains(id) && id != s.last().id@ implies ids_of(
            s.drop_last(),
        ).contains(id) by {
            let i = choose|i: int| 0 <= i < s.len() && s[i].id@ == id;
            assert(i < s.len() - 1);
            assert(s.drop_last()[i].id@ == id);
        }
        assert forall|id: Seq<char>| ids_of(s.drop_last()).contains(id) implies ids_of(s).contains(
            id,
        ) by {
            let i = choose|i: int| 0 <= i < s.drop_last().len() && s.drop_last()[i].id@ == id;
            assert(s[i].id@ == id);
        }
        assert(s[s.len() - 1].id@ == s.last().id@);
        assert(ids_of(s).contains(s.last().id@));
    }
}

/// Under each id, the latest map holds the last value written for it.
pub proof fn lemma_latest_of_last_write(s: Seq<Component>, i: int)
    requires
        0 <= i < s.len(),
        forall|j: int| i < j < s.len() ==> s[j].id@ != s[i].id@,
    ensures
        latest_of(s).dom().contains(s[i].id@),
        latest_of(s)[s[i].id@] == s[i],
    decreases s.len(),
{
    if i == s.len() - 1 {
        assert(latest_of(s) == latest_of(s.drop_last()).insert(s.last().id@, s.last()));
    } else {
        lemma_latest_of_last_write(s.drop_last(), i);
        assert(s.drop_last()[i] == s[i]);
        assert(s.last().id@ != s[i].id@);
    }
}

/// Law: after any sequence of writes, a snapshot (distinct ids, describing
/// the same latest map) holds, for each id whose last write stands at
/// position `i`, exactly one entry — the value of that last write.
pub proof fn lemma_snapshot_holds_last_write(
    snap: Seq<Component>,
    writes: Seq<Component>,
    i: int,
)
    requires
        distinct_ids(snap),
        latest_of(snap) == latest_of(writes),
        0 <= i < writes.len(),
        forall|j: int| i < j < writes.len() ==> writes[j].id@ != writes[i].id@,
    ensures
        exists|k: int| 0 <= k < snap.len() && snap[k] == writes[i],
        forall|k1: int, k2: int|
            0 <= k1 < snap.len() && 0 <= k2 < snap.len() && snap[k1].id@ == writes[i].id@
                && snap[k2].id@ == writes[i].id@ ==> k1 == k2,
{
    let id = writes[i].id@;
    lemma_latest_of_last_write(writes, i);
    lemma_latest_of_dom(snap);
    assert(ids_of(snap).contains(id));
    let k = choose|k: int| 0 <= k < snap.len() && snap[k].id@ == id;
    assert(forall|j: int| k < j < snap.len() ==> snap[j].id@ != snap[k].id@);
    lemma_latest_of_last_write(snap, k);
    assert(snap[k] == writes[i]);
}

/// Law: a snapshot taken after a write sequence mentions no id the sequence
/// did not write.
pub proof fn lemma_snapshot_ids_are_written_ids(snap: Seq<Component>, writes: Seq<Component>)
    requires
        latest_of(snap) == latest_of(writes),
    ensures
        ids_of(snap) =~= ids_of(writes),
{
    lemma_latest_of_dom(snap);
    lemma_latest_of_dom(writes);
}

/// The history log that a sequence of writes leaves behind, starting from a
/// log holding `h`: one appended entry per write, mirroring what `upsert`
/// ensures of each call.
pub open spec fn history_after(h: Seq<Component>, writes: Seq<Component>) -> Seq<Component>
    decreases writes.len(),
{
    if writes.len() == 0 {
        h
    } else {
        history_after(h.push(writes.first()), writes.drop_first())
    }
}

/// Law: the history count equals the total number of writes made, duplicate
/// ids included — writes only ever append, one entry each, in order.
pub proof fn lemma_history_counts_every_write(h: Seq<Component>, writes: Seq<Component>)
    ensures
        history_after(h, writes) == h + writes,
        history_after(h, writes).len() == h.len() + writes.len(),
    decreases writes.len(),
{
    if writes.len() == 0 {
        assert(h + writes =~= h);
    } else {
        lemma_history_counts_every_write(h.push(writes.first()), writes.drop_first());
        assert(h.push(writes.first()) + writes.drop_first() =~= h + writes);
    }
}

/// Replacing the entry that already holds an id leaves the same map as
/// writing that id afresh.
proof fn lemma_latest_of_update(s: Seq<Component>, i: int, c: Component)
    requires
        distinct_ids(s),
        0 <= i < s.len(),
        s[i].id@ == c.id@,
    ensures
        distinct_ids(s.update(i, c)),
        latest_of(s.update(i, c)) == latest_of(s).insert(c.id@, c),
    decreases s.len(),
{
    assert forall|p: int, q: int| 0 <= p < q < s.update(i, c).len() implies s.update(i, c)[p].id@
        != s.update(i, c)[q].id@ by {
        assert(s[p].id@ != s[q].id@);
    }
    if i == s.len() - 1 {
        assert(s.update(i, c).drop_last() == s.drop_last());
        assert(s.update(i, c).last() == c);
        assert(latest_of(s.update(i, c)) == latest_of(s.drop_last()).insert(c.id@, c));
        assert(latest_of(s).insert(c.id@, c) == latest_of(s.drop_last()).insert(
            s.last().id@,
            s.last(),
        ).insert(c.id@, c));
        assert(latest_of(s.drop_last()).insert(s.last().id@, s.last()).insert(c.id@, c)
            =~= latest_of(s.drop_last()).insert(c.id@, c));
    } else {
        let t = s.drop_last();
        lemma_latest_of_update(t, i, c);
        assert(s.update(i, c).drop_last() == t.update(i, c));
        assert(s.update(i, c).last() == s.last());
        assert(latest_of(s.update(i, c)) == latest_of(t).insert(c.id@, c).insert(
            s.last().id@,
            s.last(),
        ));
        assert(s.last().id@ != c.id@);
        assert(latest_of(t).insert(c.id@, c).insert(s.last().id@, s.last()) =~= latest_of(t).insert(
            s.last().id@,
            s.last(),
        ).insert(c.id@, c));
    }
}

} // verus!
