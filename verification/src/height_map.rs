//! An ordered map from heights to consensus states, kept as a list of
//! entries in rising order of height.

use vstd::prelude::*;

use crate::any::{AnyConsensusState, AnyConsensusStateView};
use crate::height::Height;

verus! {

/// One entry of the map.
#[derive(Debug)]
pub struct HeightEntry {
    pub height: Height,
    pub state: AnyConsensusState,
}

/// A map from heights to consensus states. No height occurs twice, and the
/// entries stand in rising order of height.
#[derive(Debug)]
pub struct HeightMap {
    entries: Vec<HeightEntry>,
}

/// Whether the entries stand in strictly rising order of height.
pub open spec fn rising(entries: Seq<HeightEntry>) -> bool {
    forall|i: int, j: int| 0 <= i < j < entries.len() ==> (#[trigger] entries[i]).height.lt(
        (#[trigger] entries[j]).height,
    )
}

/// Whether some entry is at the height.
pub open spec fn holds(entries: Seq<HeightEntry>, height: Height) -> bool {
    exists|i: int| 0 <= i < entries.len() && (#[trigger] entries[i]).height == height
}

/// The place of the entry at the height.
pub open spec fn place_of(entries: Seq<HeightEntry>, height: Height) -> int {
    choose|i: int| 0 <= i < entries.len() && (#[trigger] entries[i]).height == height
}

/// The map that a list of entries stands for.
pub open spec fn entries_map(entries: Seq<HeightEntry>) -> Map<Height, AnyConsensusStateView> {
    Map::new(
        |h: Height| holds(entries, h),
        |h: Height| entries[place_of(entries, h)].state@,
    )
}

/// In a rising list, the entry at a height is found at one place only.
pub proof fn lemma_place(entries: Seq<HeightEntry>, i: int)
    requires
        rising(entries),
        0 <= i < entries.len(),
    ensures
        holds(entries, entries[i].height),
        place_of(entries, entries[i].height) == i,
        entries_map(entries).contains_key(entries[i].height),
        entries_map(entries)[entries[i].height] == entries[i].state@,
{
    let k = place_of(entries, entries[i].height);
    if k < i {
        assert(entries[k].height.lt(entries[i].height));
    } else if i < k {
        assert(entries[i].height.lt(entries[k].height));
    }
}

impl View for HeightMap {
    type V = Map<Height, AnyConsensusStateView>;

    closed spec fn view(&self) -> Map<Height, AnyConsensusStateView> {
        entries_map(self.entries@)
    }
}

impl HeightMap {
    /// What holds of every map: the entries rise.
    pub closed spec fn wf(&self) -> bool {
        rising(self.entries@)
    }

    /// The empty map.
    pub fn new() -> (r: HeightMap)
        ensures
            r.wf(),
            r@ == Map::<Height, AnyConsensusStateView>::empty(),
    {
        let r = HeightMap { entries: Vec::new() };
        assert(r@ =~= Map::<Height, AnyConsensusStateView>::empty());
        r
    }

    /// The number of entries.
    pub fn len(&self) -> (r: usize)
        requires
            self.wf(),
        ensures
            self@.dom().finite(),
            r == self@.dom().len(),
    {
        proof {
            lemma_entries_count(self.entries@);
        }
        self.entries.len()
    }

    /// The place of the first entry that is not below `height`.
    fn lower_bound(&self, height: &Height) -> (r: usize)
        requires
            self.wf(),
        ensures
            r <= self.entries.len(),
            forall|i: int| 0 <= i < r ==> (#[trigger] self.entries@[i]).height.lt(*height),
            forall|i: int|
                r <= i < self.entries.len() ==> height.le((#[trigger] self.entries@[i]).height),
    {
        let mut i: usize = 0;
        while i < self.entries.len()
            invariant
                i <= self.entries.len(),
                rising(self.entries@),
                forall|j: int| 0 <= j < i ==> (#[trigger] self.entries@[j]).height.lt(*height),
            decreases self.entries.len() - i,
        {
            if !self.entries[i].height.is_lt(height) {
                assert forall|j: int| i <= j < self.entries.len() implies height.le(
                    (#[trigger] self.entries@[j]).height,
                ) by {
                    if i < j {
                        assert(self.entries@[i as int].height.lt(self.entries@[j].height));
                    }
                }
                return i;
            }
            i += 1;
        }
        i
    }

    /// The consensus state at a height.
    pub fn get(&self, height: &Height) -> (r: Option<&AnyConsensusState>)
        requires
            self.wf(),
        ensures
            match r {
                Some(state) => self@.contains_key(*height) && self@[*height] == state@,
                None => !self@.contains_key(*height),
            },
    {
        let i = self.lower_bound(height);
        if i < self.entries.len() && self.entries[i].height.revision_number
            == height.revision_number && self.entries[i].height.revision_height
            == height.revision_height {
            proof {
                lemma_place(self.entries@, i as int);
            }
            Some(&self.entries[i].state)
        } else {
            assert(!holds(self.entries@, *height)) by {
                if holds(self.entries@, *height) {
                    let k = place_of(self.entries@, *height);
                    assert(self.entries@[k].height == *height);
                    if k < i {
                        assert(self.entries@[k].height.lt(*height));
                    } else if k > i {
                        assert(self.entries@[i as int].height.lt(self.entries@[k].height));
                        assert(height.le(self.entries@[i as int].height));
                    }
                }
            }
            None
        }
    }

    /// Puts a consensus state at a height, in place of the one that was
    /// there, if any.
    pub fn insert(&mut self, height: Height, state: AnyConsensusState)
        requires
            old(self).wf(),
        ensures
            final(self).wf(),
            final(self)@ == old(self)@.insert(height, state@),
    {
        let i = self.lower_bound(&height);
        let ghost before = self.entries@;
        let present = i < self.entries.len() && self.entries[i].height.revision_number
            == height.revision_number && self.entries[i].height.revision_height
            == height.revision_height;
        if present {
            self.entries.remove(i);
        }
        let ghost middle = self.entries@;
        let ghost state_view = state@;
        self.entries.insert(i, HeightEntry { height, state });
        let ghost after = self.entries@;
        proof {
            // the list still rises
            assert forall|a: int, b: int| 0 <= a < b < after.len() implies (#[trigger] after[a]).height.lt(
                (#[trigger] after[b]).height,
            ) by {
                let shift = if present {
                    1int
                } else {
                    0int
                };
                if a < i && b == i {
                    assert(after[a] == before[a]);
                } else if a == i && b > i {
                    assert(after[b] == before[b - 1 + shift]);
                    if present {
                        assert(before[i as int].height.lt(before[b].height));
                    } else {
                        assert(height.le(before[b - 1].height));
                        assert(before[b - 1].height != height);
                    }
                } else if b < i {
                    assert(after[a] == before[a] && after[b] == before[b]);
                } else if a > i {
                    assert(after[a] == before[a - 1 + shift] && after[b] == before[b - 1 + shift]);
                } else {
                    assert(after[a] == before[a]);
                    assert(after[b] == before[b - 1 + shift]);
                }
            }
            lemma_place(after, i as int);
            // the map is the old one with the new entry
            assert forall|h: Height| #[trigger]
                entries_map(after).contains_key(h) <==> entries_map(before).insert(
                    height,
                    state_view,
                ).contains_key(h) by {
                if holds(after, h) {
                    let k = place_of(after, h);
                    if k < i {
                        assert(before[k].height == h);
                    } else if k > i {
                        let shift = if present {
                            1int
                        } else {
                            0int
                        };
                        assert(before[k - 1 + shift].height == h);
                    }
                }
                if holds(before, h) && h != height {
                    let k = place_of(before, h);
                    if k < i {
                        assert(after[k].height == h);
                    } else {
                        let shift = if present {
                            1int
                        } else {
                            0int
                        };
                        assert(after[k + 1 - shift].height == h);
                    }
                }
            }
            assert forall|h: Height| #[trigger]
                entries_map(after).contains_key(h) implies entries_map(after)[h]
                == entries_map(before).insert(height, state_view)[h] by {
                if h != height {
                    let k = place_of(before, h);
                    assert(holds(before, h));
                    lemma_place(before, k);
                    let shift = if present {
                        1int
                    } else {
                        0int
                    };
                    if k < i {
                        assert(after[k] == before[k]);
                        lemma_place(after, k);
                    } else {
                        assert(after[k + 1 - shift] == before[k]);
                        lemma_place(after, k + 1 - shift);
                    }
                }
            }
            assert(entries_map(after) =~= entries_map(before).insert(height, state_view));
        }
    }

    /// Takes away the consensus state at a height, if there is one.
    pub fn remove(&mut self, height: &Height)
        requires
            old(self).wf(),
        ensures
            final(self).wf(),
            final(self)@ == old(self)@.remove(*height),
    {
        let i = self.lower_bound(height);
        let ghost before = self.entries@;
        let present = i < self.entries.len() && self.entries[i].height.revision_number
            == height.revision_number && self.entries[i].height.revision_height
            == height.revision_height;
        if present {
            self.entries.remove(i);
            let ghost after = self.entries@;
            proof {
                assert forall|a: int, b: int| 0 <= a < b < after.len() implies (#[trigger] after[a]).height.lt(
                    (#[trigger] after[b]).height,
                ) by {
                    let x = if a < i {
                        a
                    } else {
                        a + 1
                    };
                    let y = if b < i {
                        b
                    } else {
                        b + 1
                    };
                    assert(after[a] == before[x] && after[b] == before[y]);
                }
                lemma_place(before, i as int);
                assert forall|h: Height| #[trigger]
                    entries_map(after).contains_key(h) <==> entries_map(before).remove(
                        *height,
                    ).contains_key(h) by {
                    if holds(after, h) {
                        let k = place_of(after, h);
                        let x = if k < i {
                            k
                        } else {
                            k + 1
                        };
                        assert(before[x].height == h);
                        lemma_place(before, x);
                    }
                    if holds(before, h) && h != *height {
                        let k = place_of(before, h);
                        let x = if k < i {
                            k
                        } else {
                            k - 1
                        };
                        assert(after[x].height == h);
                    }
                }
                assert forall|h: Height| #[trigger]
                    entries_map(after).contains_key(h) implies entries_map(after)[h]
                    == entries_map(before).remove(*height)[h] by {
                    let k = place_of(after, h);
                    lemma_place(after, k);
                    let x = if k < i {
                        k
                    } else {
                        k + 1
                    };
                    assert(after[k] == before[x]);
                    lemma_place(before, x);
                }
                assert(entries_map(after) =~= entries_map(before).remove(*height));
            }
        } else {
            proof {
                assert(!holds(before, *height)) by {
                    if holds(before, *height) {
                        let k = place_of(before, *height);
                        assert(before[k].height == *height);
                        if k < i {
                            assert(before[k].height.lt(*height));
                        } else if k > i {
                            assert(before[i as int].height.lt(before[k].height));
                            assert(height.le(before[i as int].height));
                        }
                    }
                }
                assert(entries_map(before) =~= entries_map(before).remove(*height));
            }
        }
    }

    /// The heights of the map, in rising order.
    pub fn heights(&self) -> (r: Vec<Height>)
        requires
            self.wf(),
        ensures
            forall|h: Height| r@.contains(h) <==> #[trigger] self@.contains_key(h),
            forall|i: int, j: int| 0 <= i < j < r.len() ==> (#[trigger] r@[i]).lt(#[trigger] r@[j]),
    {
        let mut out: Vec<Height> = Vec::new();
        let mut i: usize = 0;
        while i < self.entries.len()
            invariant
                i <= self.entries.len(),
                out.len() == i,
                forall|j: int| 0 <= j < i ==> out@[j] == (#[trigger] self.entries@[j]).height,
            decreases self.entries.len() - i,
        {
            out.push(self.entries[i].height);
            i += 1;
        }
        proof {
            assert forall|h: Height| out@.contains(h) <==> #[trigger] self@.contains_key(h) by {
                if out@.contains(h) {
                    let k = choose|k: int| 0 <= k < out@.len() && out@[k] == h;
                    assert(self.entries@[k].height == h);
                }
                if holds(self.entries@, h) {
                    let k = place_of(self.entries@, h);
                    assert(out@[k] == h);
                }
            }
            assert forall|a: int, b: int| 0 <= a < b < out.len() implies (#[trigger] out@[a]).lt(
                #[trigger] out@[b],
            ) by {
                assert(self.entries@[a].height.lt(self.entries@[b].height));
            }
        }
        out
    }

    /// The entry at the lowest height above `height`.
    pub fn next(&self, height: &Height) -> (r: Option<&HeightEntry>)
        requires
            self.wf(),
        ensures
            match r {
                Some(entry) => {
                    &&& self@.contains_key(entry.height)
                    &&& self@[entry.height] == entry.state@
                    &&& height.lt(entry.height)
                    &&& forall|other: Height| #[trigger]
                        self@.contains_key(other) && height.lt(other) ==> entry.height.le(other)
                },
                None => forall|other: Height| #[trigger]
                    self@.contains_key(other) ==> !height.lt(other),
            },
    {
        let mut i: usize = 0;
        while i < self.entries.len()
            invariant
                i <= self.entries.len(),
                rising(self.entries@),
                forall|j: int| 0 <= j < i ==> !height.lt((#[trigger] self.entries@[j]).height),
            decreases self.entries.len() - i,
        {
            if height.is_lt(&self.entries[i].height) {
                proof {
                    lemma_place(self.entries@, i as int);
                    assert forall|other: Height| #[trigger]
                        self@.contains_key(other) && height.lt(
                            other,
                        ) implies self.entries@[i as int].height.le(other) by {
                        let k = place_of(self.entries@, other);
                        if k < i {
                            assert(!height.lt(self.entries@[k].height));
                        } else if k > i {
                            assert(self.entries@[i as int].height.lt(self.entries@[k].height));
                        }
                    }
                }
                return Some(&self.entries[i]);
            }
            i += 1;
        }
        proof {
            assert forall|other: Height| #[trigger] self@.contains_key(other) implies !height.lt(
                other,
            ) by {
                let k = place_of(self.entries@, other);
                assert(!height.lt(self.entries@[k].height));
            }
        }
        None
    }

    /// The entry at the highest height below `height`.
    pub fn prev(&self, height: &Height) -> (r: Option<&HeightEntry>)
        requires
            self.wf(),
        ensures
            match r {
                Some(entry) => {
                    &&& self@.contains_key(entry.height)
                    &&& self@[entry.height] == entry.state@
                    &&& entry.height.lt(*height)
                    &&& forall|other: Height| #[trigger]
                        self@.contains_key(other) && other.lt(*height) ==> other.le(entry.height)
                },
                None => forall|other: Height| #[trigger]
                    self@.contains_key(other) ==> !other.lt(*height),
            },
    {
        let i = self.lower_bound(height);
        if i == 0 {
            proof {
                assert forall|other: Height| #[trigger] self@.contains_key(other) implies !other.lt(
                    *height,
                ) by {
                    let k = place_of(self.entries@, other);
                    assert(height.le(self.entries@[k].height));
                }
            }
            None
        } else {
            proof {
                lemma_place(self.entries@, i - 1);
                assert forall|other: Height| #[trigger]
                    self@.contains_key(other) && other.lt(*height) implies other.le(
                    self.entries@[i - 1].height,
                ) by {
                    let k = place_of(self.entries@, other);
                    if k >= i {
                        assert(height.le(self.entries@[k].height));
                    } else if k < i - 1 {
                        assert(self.entries@[k].height.lt(self.entries@[i - 1].height));
                    }
                }
            }
            Some(&self.entries[i - 1])
        }
    }
}

/// A rising list of entries stands for a map of as many heights as the
/// list has entries.
pub proof fn lemma_entries_count(entries: Seq<HeightEntry>)
    requires
        rising(entries),
    ensures
        entries_map(entries).dom().finite(),
        entries_map(entries).dom().len() == entries.len(),
    decreases entries.len(),
{
    if entries.len() == 0 {
        assert(entries_map(entries).dom() =~= Set::<Height>::empty());
    } else {
        let init = entries.drop_last();
        let last = entries.last();
        assert(rising(init)) by {
            assert forall|i: int, j: int| 0 <= i < j < init.len() implies (
            #[trigger] init[i]).height.lt((#[trigger] init[j]).height) by {
                assert(init[i] == entries[i] && init[j] == entries[j]);
            }
        }
        lemma_entries_count(init);
        assert(!entries_map(init).dom().contains(last.height)) by {
            if holds(init, last.height) {
                let k = place_of(init, last.height);
                assert(init[k] == entries[k]);
                assert(entries[k].height.lt(entries[entries.len() - 1].height));
            }
        }
        assert(entries_map(entries).dom() =~= entries_map(init).dom().insert(last.height)) by {
            assert forall|h: Height|
                entries_map(entries).dom().contains(h) <==> entries_map(init).dom().insert(
                    last.height,
                ).contains(h) by {
                if holds(entries, h) {
                    let k = place_of(entries, h);
                    if k < init.len() {
                        assert(init[k].height == h);
                    }
                }
                if holds(init, h) {
                    let k = place_of(init, h);
                    assert(entries[k].height == h);
                }
                if h == last.height {
                    assert(entries[entries.len() - 1].height == h);
                }
            }
        }
    }
}

} // verus!
