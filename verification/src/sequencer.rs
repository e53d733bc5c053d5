//! In-order release of chunk transcripts.
//!
//! Streaming transcriptions may run concurrently, but a later chunk's text
//! must never be typed before an earlier chunk's text, even when the later
//! backend call finishes first. The sequencer holds completed transcripts
//! back until every earlier chunk's transcript has been released: chunks
//! are numbered in dispatch order, and a completion is released exactly
//! when all chunks before it have been.

use vstd::prelude::*;

verus! {

/// Reorders chunk completions back into chunk order before injection.
pub struct InjectionSequencer {
    slots: Vec<Option<String>>,
    next: usize,
}

/// The completions on record after noting `text` for chunk `index` on top
/// of `pre`: what `pre` already held, with slot `index` filled.
pub open spec fn recorded(
    pre: &InjectionSequencer,
    index: int,
    text: Seq<char>,
    k: int,
) -> Option<Seq<char>> {
    if k == index {
        Some(text)
    } else {
        pre.spec_slot(k)
    }
}

impl InjectionSequencer {
    /// The chunk number owed next: every chunk before it has been
    /// released, none from it on has.
    pub closed spec fn spec_next(&self) -> int {
        self.next as int
    }

    /// The completion on record for chunk `k` that has not been released
    /// yet, if any.
    pub closed spec fn spec_slot(&self, k: int) -> Option<Seq<char>> {
        if 0 <= k < self.slots@.len() {
            match self.slots@[k] {
                Some(t) => Some(t@),
                None => None,
            }
        } else {
            None
        }
    }

    /// Released chunks hold no pending completion.
    pub open spec fn wf(&self) -> bool {
        forall|k: int| k < self.spec_next() ==> self.spec_slot(k) is None
    }

    /// A sequencer owing chunk number zero, with nothing on record.
    pub fn new() -> (s: Self)
        ensures
            s.wf(),
            s.spec_next() == 0,
            forall|k: int| s.spec_slot(k) is None,
    {
        InjectionSequencer { slots: Vec::new(), next: 0 }
    }

    /// The chunk number owed next.
    pub fn next_index(&self) -> (r: usize)
        ensures
            r == self.spec_next(),
    {
        self.next
    }

    /// Notes that chunk `index` finished with `text`, and returns every
    /// transcript now due, in chunk order: the released run starts at the
    /// chunk owed next and stops exactly at the first chunk still
    /// missing. A completion for an already-released or already-recorded
    /// chunk is dropped.
    pub fn complete(&mut self, index: usize, text: String) -> (released: Vec<String>)
        requires
            old(self).wf(),
        ensures
            final(self).wf(),
            ((index < old(self).spec_next() || old(self).spec_slot(index as int) is Some) ==> {
                &&& released@.len() == 0
                &&& final(self).spec_next() == old(self).spec_next()
                &&& (forall|k: int| final(self).spec_slot(k) == old(self).spec_slot(k))
            }),
            (!(index < old(self).spec_next() || old(self).spec_slot(index as int) is Some) ==> {
                &&& old(self).spec_next() <= final(self).spec_next()
                &&& released@.len() == final(self).spec_next() - old(self).spec_next()
                &&& (forall|k: int|
                    old(self).spec_next() <= k < final(self).spec_next() ==> recorded(
                        old(self),
                        index as int,
                        text@,
                        k,
                    ) == Some(released@[k - old(self).spec_next()]@))
                &&& recorded(old(self), index as int, text@, final(self).spec_next()) is None
                &&& (forall|k: int|
                    k >= final(self).spec_next() ==> final(self).spec_slot(k) == recorded(
                        old(self),
                        index as int,
                        text@,
                        k,
                    ))
            }),
    {
        if index < self.next {
            return Vec::new();
        }
        let ghost pre = *old(self);
        while self.slots.len() <= index
            invariant
                self.next == pre.next,
                forall|k: int| self.spec_slot(k) == pre.spec_slot(k),
            decreases index + 1 - self.slots.len(),
        {
            self.slots.push(None);
            assert(forall|k: int| self.spec_slot(k) == pre.spec_slot(k));
        }
        if self.slots[index].is_some() {
            proof {
                assert forall|k: int| k < self.spec_next() implies self.spec_slot(k) is None by {
                    assert(self.spec_slot(k) == pre.spec_slot(k));
                }
            }
            return Vec::new();
        }
        let ghost gindex = index as int;
        let ghost gtext = text@;
        self.slots[index] = Some(text);
        assert(forall|k: int| self.spec_slot(k) == recorded(&pre, gindex, gtext, k));
        let base = self.next;
        let mut released: Vec<String> = Vec::new();
        while self.next < self.slots.len() && self.slots[self.next].is_some()
            invariant
                base == pre.next <= self.next,
                self.slots@.len() > index,
                released@.len() == self.next - base,
                forall|k: int|
                    base <= k < self.next ==> recorded(&pre, gindex, gtext, k) == Some(
                        released@[k - base]@,
                    ),
                forall|k: int| k < self.next ==> self.spec_slot(k) is None,
                forall|k: int|
                    k >= self.next ==> self.spec_slot(k) == recorded(&pre, gindex, gtext, k),
            decreases self.slots.len() - self.next,
        {
            let ghost snap = *self;
            let t = match &self.slots[self.next] {
                Some(s) => s.clone(),
                None => {
                    // the loop condition saw this slot filled
                    proof {
                        assert(false);
                    }
                    return released;
                },
            };
            proof {
                assert(self.spec_slot(self.next as int) == recorded(&pre, gindex, gtext, self.next as int));
                assert(recorded(&pre, gindex, gtext, self.next as int) == Some(t@));
            }
            let ghost released_at = self.next as int;
            self.slots[self.next] = None;
            released.push(t);
            self.next = self.next + 1;
            proof {
                assert(released@[released_at - base] == t);
                assert(self.slots@ == snap.slots@.update(
                    released_at,
                    Option::<String>::None,
                ));
                assert forall|k: int| k < self.next implies self.spec_slot(k) is None by {
                    if k == released_at {
                        assert(self.slots@[k] is None);
                    } else {
                        assert(snap.spec_slot(k) is None);
                    }
                }
                assert forall|k: int|
                    k >= self.next implies self.spec_slot(k) == recorded(
                    &pre,
                    gindex,
                    gtext,
                    k,
                ) by {
                    assert(snap.spec_slot(k) == recorded(&pre, gindex, gtext, k));
                }
                assert forall|k: int|
                    base <= k < self.next implies recorded(&pre, gindex, gtext, k) == Some(
                    released@[k - base]@,
                ) by {
                    if k < released_at {
                        assert(recorded(&pre, gindex, gtext, k) == Some(released@[k - base]@));
                    }
                }
            }
        }
        proof {
            assert(self.spec_slot(self.next as int) == recorded(
                &pre,
                gindex,
                gtext,
                self.next as int,
            ));
            assert(self.spec_slot(self.next as int) is None);
        }
        released
    }
}

} // verus!
