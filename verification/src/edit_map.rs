//! A deferred patch log over an event vector, flushed in one pass.
//!
//! Rather than splicing the event vector once per resolved chain, the
//! resolver schedules `(index, remove, inserts)` patches here and the log
//! rebuilds the vector in a single left-to-right sweep.  Patch windows are
//! pairwise disjoint and each removes at least one event, which is all the
//! resolver ever asks for.

use vstd::prelude::*;
use crate::event::Event;

verus! {

/// One scheduled patch: at `index`, drop `remove` events and put
/// `inserts` in their place.
#[derive(Clone, Debug)]
pub struct Patch {
    pub index: usize,
    pub remove: usize,
    pub inserts: Vec<Event>,
}

/// Patches sorted by index, windows disjoint, each removing something.
pub open spec fn entries_wf(m: Seq<Patch>) -> bool {
    &&& forall|k: int|
        0 <= k && k + 1 < m.len() ==> #[trigger] m[k].index + m[k].remove <= m[k + 1].index
    &&& forall|k: int| 0 <= k < m.len() ==> #[trigger] m[k].remove >= 1
}

/// Every patch window lies inside a vector of length `len`.
pub open spec fn fits(m: Seq<Patch>, len: int) -> bool {
    forall|k: int| 0 <= k < m.len() ==> #[trigger] m[k].index + m[k].remove <= len
}

/// The one-pass rebuild: copy up to each patch's index, emit its inserts,
/// skip its removed window, and go on after the last patch.
pub open spec fn spliced(m: Seq<Patch>, s: Seq<Event>, from: int) -> Seq<Event>
    decreases m.len(),
{
    if m.len() == 0 {
        s.subrange(from, s.len() as int)
    } else {
        s.subrange(from, m[0].index as int) + m[0].inserts@ + spliced(
            m.drop_first(),
            s,
            m[0].index + m[0].remove,
        )
    }
}

/// One patch applied on its own: everything before the window, the
/// inserts, everything after it.
pub open spec fn apply_one(s: Seq<Event>, p: Patch) -> Seq<Event> {
    s.subrange(0, p.index as int) + p.inserts@ + s.subrange(p.index + p.remove, s.len() as int)
}

/// The patches applied one at a time, highest index first, each on the
/// result of the one before: the indexes of the remaining (lower) patches
/// stay valid at every step.
pub open spec fn applied_one_by_one(m: Seq<Patch>, s: Seq<Event>) -> Seq<Event>
    decreases m.len(),
{
    if m.len() == 0 {
        s
    } else {
        applied_one_by_one(m.drop_last(), apply_one(s, m.last()))
    }
}

/// Sorted disjoint windows all end before the last patch begins.
proof fn lemma_wf_bound(m: Seq<Patch>)
    requires
        entries_wf(m),
        m.len() > 0,
    ensures
        forall|k: int|
            0 <= k < m.len() - 1 ==> #[trigger] m[k].index + m[k].remove <= m.last().index,
    decreases m.len(),
{
    if m.len() > 1 {
        lemma_wf_bound(m.drop_last());
        assert(m.drop_last().last() == m[m.len() - 2]);
        assert forall|k: int| 0 <= k < m.len() - 1 implies #[trigger] m[k].index + m[k].remove
            <= m.last().index by {
            if k < m.len() - 2 {
                assert(m.drop_last()[k] == m[k]);
                assert(m[k].index + m[k].remove <= m[m.len() - 2].index);
                assert(m[m.len() - 2].index + m[m.len() - 2].remove <= m.last().index);
            } else {
                assert(m[k].index + m[k].remove <= m[k + 1].index);
            }
        }
    }
}

/// The one-pass sweep, restricted to all patches but the last, over the
/// vector with the last patch already applied: the same thing.
proof fn lemma_spliced_peels_last(m: Seq<Patch>, s: Seq<Event>, from: int)
    requires
        entries_wf(m),
        fits(m, s.len() as int),
        m.len() > 0,
        0 <= from <= m[0].index,
    ensures
        spliced(m, s, from) == spliced(m.drop_last(), apply_one(s, m.last()), from),
    decreases m.len(),
{
    let p = m.last();
    let s2 = apply_one(s, p);
    lemma_wf_bound(m);
    if m.len() == 1 {
        assert(m.drop_last() =~= Seq::<Patch>::empty());
        assert(spliced(m.drop_last(), s2, from) == s2.subrange(from, s2.len() as int));
        assert(m.drop_first() =~= Seq::<Patch>::empty());
        assert(m[0] == p);
        assert(spliced(m.drop_first(), s, p.index + p.remove) == s.subrange(
            p.index + p.remove,
            s.len() as int,
        ));
        assert(spliced(m, s, from) == s.subrange(from, p.index as int) + p.inserts@ + s.subrange(
            p.index + p.remove,
            s.len() as int,
        ));
        assert(s2.subrange(from, s2.len() as int) =~= s.subrange(from, p.index as int)
            + p.inserts@ + s.subrange(p.index + p.remove, s.len() as int));
    } else {
        let rest = m.drop_first();
        let kept = m.drop_last();
        let head = m[0];
        assert(kept[0] == head);
        assert(head.index + head.remove <= p.index);
        // Below the last patch's window the two vectors agree.
        assert forall|x: int| 0 <= x < p.index implies s2[x] == s[x] by {
            assert(s2[x] == s.subrange(0, p.index as int)[x]);
        }
        assert(s.subrange(from, head.index as int) =~= s2.subrange(from, head.index as int));
        assert(rest.drop_last() =~= kept.drop_first());
        assert(rest.last() == p);
        assert(entries_wf(rest)) by {
            assert forall|k: int| 0 <= k && k + 1 < rest.len() implies #[trigger] rest[k].index
                + rest[k].remove <= rest[k + 1].index by {
                assert(rest[k] == m[k + 1] && rest[k + 1] == m[k + 2]);
            }
            assert forall|k: int| 0 <= k < rest.len() implies #[trigger] rest[k].remove >= 1 by {
                assert(rest[k] == m[k + 1]);
            }
        }
        assert(fits(rest, s.len() as int)) by {
            assert forall|k: int| 0 <= k < rest.len() implies #[trigger] rest[k].index
                + rest[k].remove <= s.len() as int by {
                assert(rest[k] == m[k + 1]);
            }
        }
        assert(head.index + head.remove <= rest[0].index) by {
            assert(rest[0] == m[1]);
        }
        lemma_spliced_peels_last(rest, s, head.index + head.remove);
        assert(spliced(m, s, from) == s.subrange(from, head.index as int) + head.inserts@
            + spliced(rest.drop_last(), s2, head.index + head.remove));
        assert(spliced(kept, s2, from) == s2.subrange(from, head.index as int) + head.inserts@
            + spliced(kept.drop_first(), s2, head.index + head.remove));
        assert(spliced(m, s, from) == spliced(kept, s2, from));
    }
}

/// The law of the edit map: the one-pass sweep over the original vector
/// equals applying the same non-overlapping patches one by one on a fresh
/// copy, in sorted order from the highest index down.
pub proof fn lemma_consume_is_one_by_one(m: Seq<Patch>, s: Seq<Event>)
    requires
        entries_wf(m),
        fits(m, s.len() as int),
    ensures
        spliced(m, s, 0) == applied_one_by_one(m, s),
    decreases m.len(),
{
    if m.len() == 0 {
        assert(spliced(m, s, 0) == s.subrange(0, s.len() as int));
        assert(s.subrange(0, s.len() as int) =~= s);
    } else {
        let p = m.last();
        let s2 = apply_one(s, p);
        let kept = m.drop_last();
        lemma_wf_bound(m);
        lemma_spliced_peels_last(m, s, 0);
        assert(entries_wf(kept)) by {
            assert forall|k: int| 0 <= k && k + 1 < kept.len() implies #[trigger] kept[k].index
                + kept[k].remove <= kept[k + 1].index by {
                assert(kept[k] == m[k] && kept[k + 1] == m[k + 1]);
            }
            assert forall|k: int| 0 <= k < kept.len() implies #[trigger] kept[k].remove >= 1 by {
                assert(kept[k] == m[k]);
            }
        }
        assert(fits(kept, s2.len() as int)) by {
            assert forall|k: int| 0 <= k < kept.len() implies #[trigger] kept[k].index
                + kept[k].remove <= s2.len() as int by {
                assert(kept[k] == m[k]);
                if k < m.len() - 1 {
                    assert(m[k].index + m[k].remove <= p.index);
                    assert(p.index <= s2.len());
                }
            }
        }
        lemma_consume_is_one_by_one(kept, s2);
    }
}

/// The deferred patch log.
pub struct EditMap {
    pub entries: Vec<Patch>,
}

impl EditMap {
    /// Sorted with disjoint windows: what `add` maintains and `consume`
    /// relies on.
    pub open spec fn wf(self) -> bool {
        entries_wf(self.entries@)
    }

    /// An empty log.
    pub fn new() -> (r: EditMap)
        ensures
            r.wf(),
            r.entries@.len() == 0,
    {
        EditMap { entries: Vec::new() }
    }

    /// Whether a patch at `index` removing `remove` events overlaps no
    /// scheduled patch.
    pub fn can_add(&self, index: usize, remove: usize) -> (r: bool)
        ensures
            r == (forall|k: int|
                0 <= k < self.entries@.len() ==> #[trigger] self.entries@[k].index
                    + self.entries@[k].remove <= index || index + remove
                    <= self.entries@[k].index),
    {
        let mut k: usize = 0;
        while k < self.entries.len()
            invariant
                k <= self.entries@.len(),
                forall|j: int|
                    0 <= j < k ==> #[trigger] self.entries@[j].index + self.entries@[j].remove
                        <= index || index + remove <= self.entries@[j].index,
            decreases self.entries@.len() - k,
        {
            let e_index = self.entries[k].index;
            let e_remove = self.entries[k].remove;
            let before = e_index <= usize::MAX - e_remove && e_index + e_remove <= index;
            let after = index <= usize::MAX - remove && index + remove <= e_index;
            if !(before || after) {
                return false;
            }
            k += 1;
        }
        true
    }

    /// Schedule a patch.  Its window must be disjoint from every window
    /// already scheduled; it keeps the log sorted by index.
    pub fn add(&mut self, index: usize, remove: usize, inserts: Vec<Event>)
        requires
            old(self).wf(),
            remove >= 1,
            forall|k: int|
                0 <= k < old(self).entries@.len() ==> #[trigger] old(self).entries@[k].index
                    + old(self).entries@[k].remove <= index || index + remove <= old(
                    self,
                ).entries@[k].index,
        ensures
            final(self).wf(),
            exists|pos: int|
                0 <= pos <= old(self).entries@.len() && final(self).entries@ == old(
                    self,
                ).entries@.insert(pos, (Patch { index, remove, inserts })),
            forall|k: int|
                0 <= k < final(self).entries@.len() ==> #[trigger] final(self).entries@[k]
                    == (Patch { index, remove, inserts }) || exists|j: int|
                    0 <= j < old(self).entries@.len() && final(self).entries@[k] == old(
                    self,
                ).entries@[j],
    {
        let mut pos: usize = self.entries.len();
        while pos > 0 && index < self.entries[pos - 1].index
            invariant
                pos <= self.entries@.len(),
                forall|j: int|
                    pos <= j < self.entries@.len() ==> index < #[trigger] self.entries@[j].index,
            decreases pos,
        {
            pos -= 1;
        }
        let ghost before = self.entries@;
        self.entries.insert(pos, Patch { index, remove, inserts });
        proof {
            let m = self.entries@;
            let elt = (Patch { index, remove, inserts });
            before.insert_ensures(pos as int, elt);
            assert forall|k: int| 0 <= k && k + 1 < m.len() implies #[trigger] m[k].index
                + m[k].remove <= m[k + 1].index by {
                if k + 1 < pos {
                    assert(before.insert(pos as int, elt)[k] == before[k]);
                    assert(before.insert(pos as int, elt)[k + 1] == before[k + 1]);
                } else if k + 1 == pos {
                    assert(before.insert(pos as int, elt)[k] == before[k]);
                    assert(before.insert(pos as int, elt)[pos as int] == elt);
                    assert(index >= before[pos - 1].index);
                    assert(before[k].index + before[k].remove <= index || index + remove
                        <= before[k].index);
                } else if k == pos {
                    assert(before.insert(pos as int, elt)[pos as int] == elt);
                    assert(before.insert(pos as int, elt)[k + 1] == before[k]);
                    assert(index < before[k].index);
                    assert(before[k].index + before[k].remove <= index || index + remove
                        <= before[k].index);
                    assert(before[k].remove >= 1);
                } else {
                    assert(before.insert(pos as int, elt)[k] == before[k - 1]);
                    assert(before.insert(pos as int, elt)[k + 1] == before[k]);
                }
            }
            assert forall|k: int| 0 <= k < m.len() implies #[trigger] m[k].remove >= 1 by {
                if k < pos {
                    assert(before.insert(pos as int, elt)[k] == before[k]);
                } else if k == pos {
                    assert(before.insert(pos as int, elt)[pos as int] == elt);
                } else {
                    assert(before.insert(pos as int, elt)[k] == before[k - 1]);
                }
            }
            assert forall|k: int| 0 <= k < m.len() implies #[trigger] m[k] == elt || exists|j: int|
                0 <= j < before.len() && m[k] == before[j] by {
                if k < pos {
                    assert(before.insert(pos as int, elt)[k] == before[k]);
                    assert(m[k] == before[k]);
                } else if k == pos {
                    assert(before.insert(pos as int, elt)[pos as int] == elt);
                } else {
                    assert(before.insert(pos as int, elt)[k] == before[k - 1]);
                    assert(m[k] == before[k - 1]);
                }
            }
        }
    }

    /// Flush: rebuild `events` with every scheduled patch applied in order
    /// of ascending index, in one sweep, and clear the log.
    #[verifier::rlimit(60)]
    pub fn consume(&mut self, events: &mut Vec<Event>)
        requires
            old(self).wf(),
            fits(old(self).entries@, old(events)@.len() as int),
        ensures
            final(events)@ == spliced(old(self).entries@, old(events)@, 0),
            final(self).entries@.len() == 0,
    {
        let ghost m = self.entries@;
        let ghost s = events@;
        let total = events.len();
        let mut out: Vec<Event> = Vec::new();
        let mut i: usize = 0;
        let mut k: usize = 0;
        proof {
            assert(m.skip(0) =~= m);
            assert(out@ =~= Seq::<Event>::empty());
            assert(out@ + spliced(m, s, 0) =~= spliced(m, s, 0));
        }
        while k < self.entries.len()
            invariant
                self.entries@ == m,
                events@ == s,
                total == s.len(),
                entries_wf(m),
                fits(m, s.len() as int),
                k <= m.len(),
                i <= s.len(),
                k > 0 ==> i == m[k - 1].index + m[k - 1].remove,
                k == 0 ==> i == 0,
                out@ + spliced(m.skip(k as int), s, i as int) == spliced(m, s, 0),
            decreases m.len() - k,
        {
            let target = self.entries[k].index;
            proof {
                if k > 0 {
                    assert(m[k - 1].index + m[k - 1].remove <= m[k as int].index);
                }
            }
            let ghost out0 = out@;
            let ghost i0 = i as int;
            while i < target
                invariant
                    events@ == s,
                    0 <= i0 <= i as int,
                    i <= target,
                    target <= s.len(),
                    out@ == out0 + s.subrange(i0, i as int),
                decreases target - i,
            {
                let ghost mid = out@;
                out.push(events[i]);
                proof {
                    assert(s.subrange(i0, i + 1) =~= s.subrange(i0, i as int).push(s[i as int]));
                    assert(out@ =~= out0 + s.subrange(i0, i + 1));
                }
                i += 1;
            }
            let ghost out1 = out@;
            let n_ins = self.entries[k].inserts.len();
            let mut j: usize = 0;
            while j < n_ins
                invariant
                    self.entries@ == m,
                    k < m.len(),
                    n_ins == m[k as int].inserts@.len(),
                    j <= n_ins,
                    out@ == out1 + m[k as int].inserts@.take(j as int),
                decreases n_ins - j,
            {
                out.push(self.entries[k].inserts[j]);
                proof {
                    assert(m[k as int].inserts@.take(j + 1) =~= m[k as int].inserts@.take(
                        j as int,
                    ).push(m[k as int].inserts@[j as int]));
                    assert(out@ =~= out1 + m[k as int].inserts@.take(j + 1));
                }
                j += 1;
            }
            let rem = self.entries[k].remove;
            proof {
                assert(m[k as int].index + m[k as int].remove <= s.len() as int);
                assert(target + rem <= total);
            }
            i = target + rem;
            proof {
                assert(m[k as int].inserts@.take(n_ins as int) =~= m[k as int].inserts@);
                assert(m.skip(k as int)[0] == m[k as int]);
                assert(m.skip(k as int).drop_first() =~= m.skip(k + 1));
                assert(spliced(m.skip(k as int), s, i0) == s.subrange(
                    i0,
                    m[k as int].index as int,
                ) + m[k as int].inserts@ + spliced(m.skip(k + 1), s, i as int));
                assert(out@ =~= out0 + s.subrange(i0, target as int) + m[k as int].inserts@);
                assert(out@ + spliced(m.skip(k + 1), s, i as int) =~= out0 + (s.subrange(
                    i0,
                    target as int,
                ) + m[k as int].inserts@ + spliced(m.skip(k + 1), s, i as int)));
                assert(out@ + spliced(m.skip(k + 1), s, i as int) =~= out0 + spliced(
                    m.skip(k as int),
                    s,
                    i0,
                ));
            }
            k += 1;
        }
        let ghost out2 = out@;
        let ghost i2 = i as int;
        while i < events.len()
            invariant
                events@ == s,
                0 <= i2 <= i as int,
                i <= s.len(),
                out@ == out2 + s.subrange(i2, i as int),
            decreases s.len() - i,
        {
            out.push(events[i]);
            proof {
                assert(s.subrange(i2, i + 1) =~= s.subrange(i2, i as int).push(s[i as int]));
                assert(out@ =~= out2 + s.subrange(i2, i + 1));
            }
            i += 1;
        }
        proof {
            assert(m.skip(m.len() as int) =~= Seq::<Patch>::empty());
            assert(spliced(m.skip(m.len() as int), s, i2) == s.subrange(i2, s.len() as int));
            assert(out@ =~= out2 + spliced(m.skip(m.len() as int), s, i2));
            assert(out@ =~= spliced(m, s, 0));
        }
        *events = out;
        self.entries.clear();
    }
}

} // verus!
