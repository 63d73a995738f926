//! The pointer index: which local slot owns which container.
//!
//! Two maps are kept in step. The forward map gives, for a local slot of a
//! frame, the containers under it and the path of each; the reverse map
//! gives, for a container's raw address, the coordinate at which it stands.

use crate::sub_index::SubIndex;
use crate::traced_value::Reference;
use std::collections::BTreeMap;
use vstd::prelude::*;

verus! {

/// The reverse map after the containers of `addressing` were put under local
/// `local_index` of frame `frame_index`: their entries replace what stood
/// there, every other entry is kept.
pub open spec fn reverse_with_local(
    reverse: Map<usize, Reference>,
    frame_index: usize,
    local_index: usize,
    addressing: Map<usize, SubIndex>,
) -> Map<usize, Reference> {
    Map::new(
        |a: usize| addressing.contains_key(a) || reverse.contains_key(a),
        |a: usize|
            if addressing.contains_key(a) {
                Reference { frame_index, local_index, sub_index: addressing[a] }
            } else {
                reverse[a]
            },
    )
}

/// The reverse map without the entries that point into local `local_index`
/// of frame `frame_index`.
pub open spec fn reverse_without_local(
    reverse: Map<usize, Reference>,
    frame_index: usize,
    local_index: usize,
) -> Map<usize, Reference> {
    Map::new(
        |a: usize|
            reverse.contains_key(a) && !(reverse[a].frame_index == frame_index
                && reverse[a].local_index == local_index),
        |a: usize| reverse[a],
    )
}

/// The reverse map without the entries that point into frame `frame_index`.
pub open spec fn reverse_without_frame(
    reverse: Map<usize, Reference>,
    frame_index: usize,
) -> Map<usize, Reference> {
    Map::new(
        |a: usize| reverse.contains_key(a) && reverse[a].frame_index != frame_index,
        |a: usize| reverse[a],
    )
}

/// The forward map without the local slots of frame `frame_index`.
pub open spec fn forward_without_frame(
    forward: Map<(usize, usize), Map<usize, SubIndex>>,
    frame_index: usize,
) -> Map<(usize, usize), Map<usize, SubIndex>> {
    Map::new(
        |s: (usize, usize)| forward.contains_key(s) && s.0 != frame_index,
        |s: (usize, usize)| forward[s],
    )
}

/// The forward map says that the container at `address` stands at `path`
/// under local `local_index` of frame `frame_index`.
pub open spec fn forward_has(
    forward: Map<(usize, usize), Map<usize, SubIndex>>,
    frame_index: usize,
    local_index: usize,
    address: usize,
    path: SubIndex,
) -> bool {
    &&& forward.contains_key((frame_index, local_index))
    &&& forward[(frame_index, local_index)].contains_key(address)
    &&& forward[(frame_index, local_index)][address] == path
}

/// The reverse map says that the container at `address` stands at `path`
/// under local `local_index` of frame `frame_index`.
pub open spec fn reverse_has(
    reverse: Map<usize, Reference>,
    frame_index: usize,
    local_index: usize,
    address: usize,
    path: SubIndex,
) -> bool {
    &&& reverse.contains_key(address)
    &&& reverse[address] == (Reference { frame_index, local_index, sub_index: path })
}

/// The two maps say the same: an address stands at a coordinate in the
/// reverse map exactly where the forward map puts it at that coordinate.
pub open spec fn maps_agree(
    forward: Map<(usize, usize), Map<usize, SubIndex>>,
    reverse: Map<usize, Reference>,
) -> bool {
    forall|f: usize, l: usize, a: usize, p: SubIndex|
        #![trigger forward_has(forward, f, l, a, p)]
        #![trigger reverse_has(reverse, f, l, a, p)]
        reverse_has(reverse, f, l, a, p) <==> forward_has(forward, f, l, a, p)
}

/// No entry of the reverse map points into local `local_index` of frame
/// `frame_index`.
pub open spec fn local_is_vacant(
    reverse: Map<usize, Reference>,
    frame_index: usize,
    local_index: usize,
) -> bool {
    forall|a: usize| #[trigger]
        reverse.contains_key(a) ==> !(reverse[a].frame_index == frame_index
            && reverse[a].local_index == local_index)
}

/// No address of `addressing` has an entry in the reverse map.
pub open spec fn addresses_are_fresh(
    reverse: Map<usize, Reference>,
    addressing: Map<usize, SubIndex>,
) -> bool {
    forall|a: usize| #[trigger] addressing.contains_key(a) ==> !reverse.contains_key(a)
}

/// The pointer index.
pub struct FootprintState {
    // frame_index -> (local_index -> addressing)
    local_value_addressings: BTreeMap<usize, BTreeMap<usize, BTreeMap<usize, SubIndex>>>,
    // raw_address -> (frame_index, local_index, sub_index)
    reverse_local_value_addressings: BTreeMap<usize, Reference>,
}

impl FootprintState {
    /// The forward map: for a frame and a local of it, the containers under
    /// that local, each with its path.
    pub closed spec fn forward(self) -> Map<(usize, usize), Map<usize, SubIndex>> {
        Map::new(
            |s: (usize, usize)|
                self.local_value_addressings@.contains_key(s.0)
                    && self.local_value_addressings@[s.0]@.contains_key(s.1),
            |s: (usize, usize)| self.local_value_addressings@[s.0]@[s.1]@,
        )
    }

    /// The reverse map: for a raw address, the coordinate at which the
    /// container stands.
    pub closed spec fn reverse(self) -> Map<usize, Reference> {
        self.reverse_local_value_addressings@
    }

    /// The forward and the reverse map say the same.
    pub open spec fn consistent(self) -> bool {
        maps_agree(self.forward(), self.reverse())
    }

    /// The index with nothing in it.
    pub fn new() -> (r: Self)
        ensures
            r.forward() == Map::<(usize, usize), Map<usize, SubIndex>>::empty(),
            r.reverse() == Map::<usize, Reference>::empty(),
            r.consistent(),
    {
        let r = FootprintState {
            local_value_addressings: BTreeMap::new(),
            reverse_local_value_addressings: BTreeMap::new(),
        };
        proof {
            assert(r.forward() =~= Map::<(usize, usize), Map<usize, SubIndex>>::empty());
        }
        r
    }

    /// A copy of the index.
    pub fn snapshot(&self) -> (r: Self)
        ensures
            r.forward() == self.forward(),
            r.reverse() == self.reverse(),
    {
        let r = FootprintState {
            local_value_addressings: self.local_value_addressings.clone(),
            reverse_local_value_addressings: self.reverse_local_value_addressings.clone(),
        };
        proof {
            assert(r.forward() =~= self.forward());
        }
        r
    }

    /// The reverse map itself.
    pub fn reverse_local_value_addressings(&self) -> (r: &BTreeMap<usize, Reference>)
        ensures
            r@ == self.reverse(),
    {
        &self.reverse_local_value_addressings
    }

    /// The coordinate at which the container at `raw_address` stands.
    pub fn lookup(&self, raw_address: usize) -> (r: Option<Reference>)
        ensures
            r == if self.reverse().contains_key(raw_address) {
                Some(self.reverse()[raw_address])
            } else {
                None
            },
    {
        match self.reverse_local_value_addressings.get(&raw_address) {
            Some(reference) => Some(*reference),
            None => None,
        }
    }

    /// The path of the container at `raw_address` under local `local_index`
    /// of frame `frame_index`, as the forward map has it.
    pub fn addressing(&self, frame_index: usize, local_index: usize, raw_address: usize) -> (r:
        Option<SubIndex>)
        ensures
            r == if self.forward().contains_key((frame_index, local_index)) && self.forward()[(
                frame_index,
                local_index,
            )].contains_key(raw_address) {
                Some(self.forward()[(frame_index, local_index)][raw_address])
            } else {
                None
            },
    {
        match self.local_value_addressings.get(&frame_index) {
            Some(locals) => match locals.get(&local_index) {
                Some(addressing) => match addressing.get(&raw_address) {
                    Some(path) => Some(*path),
                    None => None,
                },
                None => None,
            },
            None => None,
        }
    }

    /// Number of containers in the reverse map.
    pub fn len(&self) -> (n: usize)
        ensures
            n == self.reverse().dom().len(),
    {
        self.reverse_local_value_addressings.len()
    }

    /// Puts `sub_indexes` under local `local_index` of frame `frame_index`,
    /// in place of what the forward map held there, and points each of its
    /// addresses at that local in the reverse map.
    pub fn add_local(
        &mut self,
        frame_index: usize,
        local_index: usize,
        sub_indexes: BTreeMap<usize, SubIndex>,
    )
        ensures
            final(self).forward() == old(self).forward().insert(
                (frame_index, local_index),
                sub_indexes@,
            ),
            final(self).reverse() == reverse_with_local(
                old(self).reverse(),
                frame_index,
                local_index,
                sub_indexes@,
            ),
            old(self).consistent() && local_is_vacant(
                old(self).reverse(),
                frame_index,
                local_index,
            ) && addresses_are_fresh(old(self).reverse(), sub_indexes@)
                ==> final(self).consistent(),
    {
        let ghost before = old(self).reverse();
        for kv in it: sub_indexes.iter()
            invariant
                self.local_value_addressings == old(self).local_value_addressings,
                before == old(self).reverse(),
                forall|j: int|
                    0 <= j < it.index() ==> self.reverse_local_value_addressings@.contains_key(
                        *(#[trigger] it.seq()[j]).0,
                    ) && self.reverse_local_value_addressings@[*it.seq()[j].0] == (Reference {
                        frame_index,
                        local_index,
                        sub_index: *it.seq()[j].1,
                    }),
                forall|a: usize|
                    !sub_indexes@.contains_key(a) ==> (
                    self.reverse_local_value_addressings@.contains_key(a) == before.contains_key(
                        a,
                    )),
                forall|a: usize|
                    !sub_indexes@.contains_key(a) && before.contains_key(a)
                        ==> self.reverse_local_value_addressings@[a] == before[a],
        {
            let (raw_address, sub_index) = kv;
            proof {
                assert forall|j: int| 0 <= j < it.seq().len() implies sub_indexes@.contains_key(
                    *(#[trigger] it.seq()[j]).0,
                ) && sub_indexes@[*it.seq()[j].0] == *it.seq()[j].1 by {
                    assert(sub_indexes@.contains_key(*it.seq()[j].0));
                }
            }
            self.reverse_local_value_addressings.insert(
                *raw_address,
                Reference::new(frame_index, local_index, *sub_index),
            );
        }
        proof {
            assert(self.reverse() =~= reverse_with_local(
                before,
                frame_index,
                local_index,
                sub_indexes@,
            ));
        }
        let ghost addressing = sub_indexes@;
        let mut locals = match self.local_value_addressings.remove(&frame_index) {
            Some(locals) => locals,
            None => BTreeMap::new(),
        };
        locals.insert(local_index, sub_indexes);
        self.local_value_addressings.insert(frame_index, locals);
        proof {
            assert(final(self).forward() =~= old(self).forward().insert(
                (frame_index, local_index),
                addressing,
            ));
            if old(self).consistent() && local_is_vacant(before, frame_index, local_index)
                && addresses_are_fresh(before, addressing) {
                lemma_add_keeps_agreement(
                    old(self).forward(),
                    before,
                    frame_index,
                    local_index,
                    addressing,
                );
            }
        }
    }

    /// Drops what the forward map holds under local `local_index` of frame
    /// `frame_index`, and every entry of the reverse map that points into
    /// that local.
    pub fn remove_local(&mut self, frame_index: usize, local_index: usize)
        ensures
            final(self).forward() == old(self).forward().remove((frame_index, local_index)),
            final(self).reverse() == reverse_without_local(
                old(self).reverse(),
                frame_index,
                local_index,
            ),
            local_is_vacant(final(self).reverse(), frame_index, local_index),
            old(self).consistent() ==> final(self).consistent(),
    {
        let ghost before = old(self).reverse();
        match self.local_value_addressings.remove(&frame_index) {
            Some(mut locals) => {
                locals.remove(&local_index);
                self.local_value_addressings.insert(frame_index, locals);
            },
            None => {},
        }
        proof {
            assert(self.forward() =~= old(self).forward().remove((frame_index, local_index)));
        }
        // delete any in (frame_index, local_index)
        let mut kept: BTreeMap<usize, Reference> = BTreeMap::new();
        for kv in it: self.reverse_local_value_addressings.iter()
            invariant
                self.reverse_local_value_addressings@ == before,
                forall|j: int|
                    0 <= j < it.index() && !((#[trigger] it.seq()[j]).1.frame_index == frame_index
                        && it.seq()[j].1.local_index == local_index) ==> kept@.contains_key(
                        *it.seq()[j].0,
                    ),
                forall|a: usize| #[trigger]
                    kept@.contains_key(a) ==> before.contains_key(a) && kept@[a] == before[a] && !(
                    before[a].frame_index == frame_index && before[a].local_index == local_index),
        {
            let (raw_address, reference) = kv;
            if !(reference.frame_index == frame_index && reference.local_index == local_index) {
                kept.insert(*raw_address, *reference);
            }
        }
        proof {
            assert(kept@ =~= reverse_without_local(before, frame_index, local_index));
        }
        self.reverse_local_value_addressings = kept;
        proof {
            if old(self).consistent() {
                lemma_remove_local_keeps_agreement(
                    old(self).forward(),
                    before,
                    frame_index,
                    local_index,
                );
            }
        }
    }

    /// Drops what the forward map holds under the locals of frame
    /// `frame_index`, and every entry of the reverse map that points into
    /// that frame.
    pub fn remove_locals(&mut self, frame_index: usize)
        ensures
            final(self).forward() == forward_without_frame(old(self).forward(), frame_index),
            final(self).reverse() == reverse_without_frame(old(self).reverse(), frame_index),
            forall|a: usize| #[trigger]
                final(self).reverse().contains_key(a) ==> final(self).reverse()[a].frame_index
                    != frame_index,
            old(self).consistent() ==> final(self).consistent(),
    {
        let ghost before = old(self).reverse();
        self.local_value_addressings.remove(&frame_index);
        proof {
            assert(self.forward() =~= forward_without_frame(old(self).forward(), frame_index));
        }
        let mut kept: BTreeMap<usize, Reference> = BTreeMap::new();
        for kv in it: self.reverse_local_value_addressings.iter()
            invariant
                self.reverse_local_value_addressings@ == before,
                forall|j: int|
                    0 <= j < it.index() && (#[trigger] it.seq()[j]).1.frame_index != frame_index
                        ==> kept@.contains_key(*it.seq()[j].0),
                forall|a: usize| #[trigger]
                    kept@.contains_key(a) ==> before.contains_key(a) && kept@[a] == before[a]
                        && before[a].frame_index != frame_index,
        {
            let (raw_address, reference) = kv;
            if reference.frame_index != frame_index {
                kept.insert(*raw_address, *reference);
            }
        }
        proof {
            assert(kept@ =~= reverse_without_frame(before, frame_index));
        }
        self.reverse_local_value_addressings = kept;
        proof {
            if old(self).consistent() {
                lemma_remove_frame_keeps_agreement(old(self).forward(), before, frame_index);
            }
        }
    }
}

/// Adding a local whose slot is vacant and whose addresses are new keeps the
/// two maps in agreement.
pub proof fn lemma_add_keeps_agreement(
    forward: Map<(usize, usize), Map<usize, SubIndex>>,
    reverse: Map<usize, Reference>,
    frame_index: usize,
    local_index: usize,
    addressing: Map<usize, SubIndex>,
)
    requires
        maps_agree(forward, reverse),
        local_is_vacant(reverse, frame_index, local_index),
        addresses_are_fresh(reverse, addressing),
    ensures
        maps_agree(
            forward.insert((frame_index, local_index), addressing),
            reverse_with_local(reverse, frame_index, local_index, addressing),
        ),
{
    let forward2 = forward.insert((frame_index, local_index), addressing);
    let reverse2 = reverse_with_local(reverse, frame_index, local_index, addressing);
    assert forall|f: usize, l: usize, a: usize, p: SubIndex|
        reverse_has(reverse2, f, l, a, p) <==> forward_has(forward2, f, l, a, p) by {
        if f == frame_index && l == local_index {
            if forward_has(forward2, f, l, a, p) {
                assert(addressing.contains_key(a));
            }
            if reverse_has(reverse2, f, l, a, p) {
                if !addressing.contains_key(a) {
                    assert(reverse.contains_key(a));
                }
            }
        } else {
            assert(forward_has(forward2, f, l, a, p) == forward_has(forward, f, l, a, p));
            if forward_has(forward, f, l, a, p) {
                assert(reverse_has(reverse, f, l, a, p));
                assert(reverse.contains_key(a));
            }
            if reverse_has(reverse2, f, l, a, p) {
                assert(!addressing.contains_key(a));
                assert(reverse_has(reverse, f, l, a, p));
            }
        }
    }
}

/// Removing a local from both maps keeps them in agreement.
pub proof fn lemma_remove_local_keeps_agreement(
    forward: Map<(usize, usize), Map<usize, SubIndex>>,
    reverse: Map<usize, Reference>,
    frame_index: usize,
    local_index: usize,
)
    requires
        maps_agree(forward, reverse),
    ensures
        maps_agree(
            forward.remove((frame_index, local_index)),
            reverse_without_local(reverse, frame_index, local_index),
        ),
{
    let forward2 = forward.remove((frame_index, local_index));
    let reverse2 = reverse_without_local(reverse, frame_index, local_index);
    assert forall|f: usize, l: usize, a: usize, p: SubIndex|
        reverse_has(reverse2, f, l, a, p) <==> forward_has(forward2, f, l, a, p) by {
        if f == frame_index && l == local_index {
        } else {
            assert(forward_has(forward2, f, l, a, p) == forward_has(forward, f, l, a, p));
            assert(reverse_has(reverse, f, l, a, p) == forward_has(forward, f, l, a, p));
        }
    }
}

/// Removing a frame from both maps keeps them in agreement.
pub proof fn lemma_remove_frame_keeps_agreement(
    forward: Map<(usize, usize), Map<usize, SubIndex>>,
    reverse: Map<usize, Reference>,
    frame_index: usize,
)
    requires
        maps_agree(forward, reverse),
    ensures
        maps_agree(
            forward_without_frame(forward, frame_index),
            reverse_without_frame(reverse, frame_index),
        ),
{
    let forward2 = forward_without_frame(forward, frame_index);
    let reverse2 = reverse_without_frame(reverse, frame_index);
    assert forall|f: usize, l: usize, a: usize, p: SubIndex|
        reverse_has(reverse2, f, l, a, p) <==> forward_has(forward2, f, l, a, p) by {
        if f == frame_index {
        } else {
            assert(forward_has(forward2, f, l, a, p) == forward_has(forward, f, l, a, p));
            assert(reverse_has(reverse, f, l, a, p) == forward_has(forward, f, l, a, p));
        }
    }
}

/// After a local is removed and a new addressing is put in its place, every
/// entry of the reverse map that points into that local comes from the new
/// addressing: none is left from what the local held before.
pub proof fn law_store_leaves_nothing_stale(
    reverse: Map<usize, Reference>,
    frame_index: usize,
    local_index: usize,
    addressing: Map<usize, SubIndex>,
)
    ensures
        forall|a: usize|
            #![trigger reverse_with_local(reverse_without_local(reverse, frame_index, local_index), frame_index, local_index, addressing).contains_key(a)]
            ({
                let after = reverse_with_local(
                    reverse_without_local(reverse, frame_index, local_index),
                    frame_index,
                    local_index,
                    addressing,
                );
                after.contains_key(a) && after[a].frame_index == frame_index
                    && after[a].local_index == local_index ==> addressing.contains_key(a)
                    && after[a].sub_index == addressing[a]
            }),
{
}

/// After the locals of a frame are removed, no entry of the reverse map
/// points into that frame.
pub proof fn law_frame_is_clean(reverse: Map<usize, Reference>, frame_index: usize)
    ensures
        forall|a: usize| #[trigger]
            reverse_without_frame(reverse, frame_index).contains_key(a) ==> reverse_without_frame(
                reverse,
                frame_index,
            )[a].frame_index != frame_index,
{
}

} // verus!
