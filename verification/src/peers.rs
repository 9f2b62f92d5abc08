//! An ordered set of endpoint ids.

use vstd::prelude::*;

use crate::ids::EndpointId;

verus! {

/// A set of endpoint ids, held in ascending order and without repeats.
#[derive(Debug)]
pub struct PeerSet {
    ids: Vec<EndpointId>,
}

/// Whether each id comes before every later one.
pub open spec fn ascending(ids: Seq<EndpointId>) -> bool {
    forall|i: int, j: int| 0 <= i < j < ids.len() ==> (#[trigger] ids[i]).precedes(#[trigger] ids[j])
}

/// Whether `id` is the first of the set in ascending order.
pub open spec fn is_first(id: EndpointId, set: Set<EndpointId>) -> bool {
    set.contains(id) && forall|other: EndpointId|
        #[trigger] set.contains(other) ==> other == id || id.precedes(other)
}

impl View for PeerSet {
    type V = Set<EndpointId>;

    closed spec fn view(&self) -> Set<EndpointId> {
        Set::new(|id: EndpointId| self.ids@.contains(id))
    }
}

impl PeerSet {
    /// Whether the ids are in order.
    pub closed spec fn wf(self) -> bool {
        ascending(self.ids@)
    }

    /// Creates an empty set.
    pub fn new() -> (res: Self)
        ensures
            res.wf(),
            res@ == Set::<EndpointId>::empty(),
    {
        let res = PeerSet { ids: Vec::new() };
        assert(res@ =~= Set::<EndpointId>::empty());
        res
    }

    /// Returns how many ids come before `id`.
    fn position(&self, id: &EndpointId) -> (res: usize)
        requires
            self.wf(),
        ensures
            res <= self.ids@.len(),
            forall|j: int| 0 <= j < res ==> (#[trigger] self.ids@[j]).precedes(*id),
            forall|j: int| res <= j < self.ids@.len() ==> !(#[trigger] self.ids@[j]).precedes(*id),
    {
        let mut at: usize = 0;
        while at < self.ids.len() && self.ids[at].is_before(id)
            invariant
                at <= self.ids@.len(),
                forall|j: int| 0 <= j < at ==> (#[trigger] self.ids@[j]).precedes(*id),
            decreases self.ids@.len() - at,
        {
            at += 1;
        }
        proof {
            assert forall|j: int| at <= j < self.ids@.len() implies !(
            #[trigger] self.ids@[j]).precedes(*id) by {
                if j > at {
                    assert(self.ids@[at as int].precedes(self.ids@[j]));
                }
            }
        }
        at
    }

    /// Returns whether the set holds `id`.
    pub fn contains(&self, id: &EndpointId) -> (res: bool)
        requires
            self.wf(),
        ensures
            res == self@.contains(*id),
    {
        let at: usize = self.position(id);
        let found: bool = at < self.ids.len() && self.ids[at] == *id;
        proof {
            if found {
                assert(self.ids@[at as int] == *id);
            } else if self.ids@.contains(*id) {
                let k = choose|k: int| 0 <= k < self.ids@.len() && self.ids@[k] == *id;
                if k > at {
                    assert(self.ids@[at as int].precedes(self.ids@[k]));
                }
            }
        }
        found
    }

    /// Adds `id`, if the set does not hold it.
    pub fn insert(&mut self, id: EndpointId)
        requires
            old(self).wf(),
        ensures
            final(self).wf(),
            final(self)@ == old(self)@.insert(id),
    {
        let at: usize = self.position(&id);
        let ghost before = self.ids@;
        if at < self.ids.len() && self.ids[at] == id {
            assert(before.contains(before[at as int]));
            assert(self@ =~= old(self)@.insert(id));
            return;
        }
        self.ids.insert(at, id);
        proof {
            let after = self.ids@;
            assert(after == before.insert(at as int, id));
            assert forall|i: int, j: int| 0 <= i < j < after.len() implies (
            #[trigger] after[i]).precedes(#[trigger] after[j]) by {
                if i < at && j == at {
                    assert(before[i].precedes(id));
                } else if i == at {
                    assert(after[j] == before[j - 1]);
                    assert(!before[j - 1].precedes(id));
                    if before[j - 1] == id && j - 1 > at {
                        assert(before[at as int].precedes(before[j - 1]));
                    }
                } else if i < at {
                    if j > at {
                        assert(after[j] == before[j - 1]);
                        assert(before[i].precedes(before[j - 1]));
                    } else {
                        assert(before[i].precedes(before[j]));
                    }
                } else {
                    assert(before[i - 1].precedes(before[j - 1]));
                }
            }
            assert forall|other: EndpointId| self@.contains(other) == old(self)@.insert(
                id,
            ).contains(other) by {
                if before.contains(other) {
                    let k = choose|k: int| 0 <= k < before.len() && before[k] == other;
                    if k < at {
                        assert(after[k] == other);
                    } else {
                        assert(after[k + 1] == other);
                    }
                }
                if other == id {
                    assert(after[at as int] == id);
                }
                if after.contains(other) && other != id {
                    let k = choose|k: int| 0 <= k < after.len() && after[k] == other;
                    if k < at {
                        assert(before[k] == other);
                    } else {
                        assert(before[k - 1] == other);
                    }
                }
            }
            assert(self@ =~= old(self)@.insert(id));
        }
    }

    /// Takes `id` out, if the set holds it.
    pub fn remove(&mut self, id: &EndpointId)
        requires
            old(self).wf(),
        ensures
            final(self).wf(),
            final(self)@ == old(self)@.remove(*id),
    {
        let ghost gone = *id;
        let mut kept: Vec<EndpointId> = Vec::new();
        let mut i: usize = 0;
        while i < self.ids.len()
            invariant
                i <= self.ids@.len(),
                ascending(self.ids@),
                gone == *id,
                ascending(kept@),
                forall|k: int|
                    0 <= k < kept@.len() ==> #[trigger] kept@[k] != gone && self.ids@.take(
                        i as int,
                    ).contains(kept@[k]),
                forall|j: int| 0 <= j < i && #[trigger] self.ids@[j] != gone ==> kept@.contains(
                    self.ids@[j],
                ),
            decreases self.ids@.len() - i,
        {
            let one = self.ids[i];
            let ghost past = kept@;
            let ghost head = self.ids@.take(i as int);
            let ghost more = self.ids@.take(i + 1);
            if one != *id {
                kept.push(one);
            }
            proof {
                assert(more =~= head.push(one));
                assert forall|a: int, b: int| 0 <= a < b < kept@.len() implies (
                #[trigger] kept@[a]).precedes(#[trigger] kept@[b]) by {
                    if b < past.len() {
                        assert(past[a].precedes(past[b]));
                    } else {
                        assert(head.contains(past[a]));
                        let j = choose|j: int| 0 <= j < head.len() && head[j] == past[a];
                        assert(self.ids@[j].precedes(self.ids@[i as int]));
                    }
                }
                assert forall|k: int| 0 <= k < kept@.len() implies #[trigger] kept@[k] != gone
                    && more.contains(kept@[k]) by {
                    if k < past.len() {
                        assert(head.contains(past[k]));
                        let j = choose|j: int| 0 <= j < head.len() && head[j] == past[k];
                        assert(more[j] == kept@[k]);
                    } else {
                        assert(more[i as int] == one);
                    }
                }
                assert forall|j: int|
                    0 <= j < i + 1 && #[trigger] self.ids@[j] != gone implies kept@.contains(
                    self.ids@[j],
                ) by {
                    if j < i {
                        let k = choose|k: int| 0 <= k < past.len() && past[k] == self.ids@[j];
                        assert(kept@[k] == self.ids@[j]);
                    } else {
                        assert(kept@[kept@.len() - 1] == one);
                    }
                }
            }
            i += 1;
        }
        proof {
            let all = self.ids@;
            assert(all.take(all.len() as int) =~= all);
            assert forall|other: EndpointId| kept@.contains(other) == (all.contains(other) && other
                != gone) by {
                if kept@.contains(other) {
                    let k = choose|k: int| 0 <= k < kept@.len() && kept@[k] == other;
                    assert(kept@[k] != gone);
                }
                if all.contains(other) && other != gone {
                    let j = choose|j: int| 0 <= j < all.len() && all[j] == other;
                    assert(kept@.contains(all[j]));
                }
            }
        }
        self.ids = kept;
        assert(self@ =~= old(self)@.remove(*id));
    }

    /// Keeps only the ids that `other` holds too.
    pub fn retain_in(&mut self, other: &PeerSet)
        requires
            old(self).wf(),
            other.wf(),
        ensures
            final(self).wf(),
            final(self)@ == old(self)@.intersect(other@),
    {
        let mut kept: Vec<EndpointId> = Vec::new();
        let mut i: usize = 0;
        while i < self.ids.len()
            invariant
                i <= self.ids@.len(),
                ascending(self.ids@),
                other.wf(),
                ascending(kept@),
                forall|k: int|
                    0 <= k < kept@.len() ==> other@.contains(#[trigger] kept@[k])
                        && self.ids@.take(i as int).contains(kept@[k]),
                forall|j: int|
                    0 <= j < i && other@.contains(#[trigger] self.ids@[j]) ==> kept@.contains(
                        self.ids@[j],
                    ),
            decreases self.ids@.len() - i,
        {
            let one = self.ids[i];
            let ghost past = kept@;
            let ghost head = self.ids@.take(i as int);
            let ghost more = self.ids@.take(i + 1);
            if other.contains(&one) {
                kept.push(one);
            }
            proof {
                assert(more =~= head.push(one));
                assert forall|a: int, b: int| 0 <= a < b < kept@.len() implies (
                #[trigger] kept@[a]).precedes(#[trigger] kept@[b]) by {
                    if b < past.len() {
                        assert(past[a].precedes(past[b]));
                    } else {
                        assert(head.contains(past[a]));
                        let j = choose|j: int| 0 <= j < head.len() && head[j] == past[a];
                        assert(self.ids@[j].precedes(self.ids@[i as int]));
                    }
                }
                assert forall|k: int| 0 <= k < kept@.len() implies other@.contains(
                    #[trigger] kept@[k],
                ) && more.contains(kept@[k]) by {
                    if k < past.len() {
                        assert(head.contains(past[k]));
                        let j = choose|j: int| 0 <= j < head.len() && head[j] == past[k];
                        assert(more[j] == kept@[k]);
                    } else {
                        assert(more[i as int] == one);
                    }
                }
                assert forall|j: int|
                    0 <= j < i + 1 && other@.contains(
                        #[trigger] self.ids@[j],
                    ) implies kept@.contains(self.ids@[j]) by {
                    if j < i {
                        let k = choose|k: int| 0 <= k < past.len() && past[k] == self.ids@[j];
                        assert(kept@[k] == self.ids@[j]);
                    } else {
                        assert(kept@[kept@.len() - 1] == one);
                    }
                }
            }
            i += 1;
        }
        proof {
            let all = self.ids@;
            assert(all.take(all.len() as int) =~= all);
            assert forall|id: EndpointId| kept@.contains(id) == (all.contains(id)
                && other@.contains(id)) by {
                if kept@.contains(id) {
                    let k = choose|k: int| 0 <= k < kept@.len() && kept@[k] == id;
                    assert(other@.contains(kept@[k]));
                }
                if all.contains(id) && other@.contains(id) {
                    let j = choose|j: int| 0 <= j < all.len() && all[j] == id;
                    assert(kept@.contains(all[j]));
                }
            }
        }
        self.ids = kept;
        assert(self@ =~= old(self)@.intersect(other@));
    }

    /// Returns the first id, in ascending order, that `other` does not hold.
    pub fn first_outside(&self, other: &PeerSet) -> (res: Option<EndpointId>)
        requires
            self.wf(),
            other.wf(),
        ensures
            match res {
                Some(id) => is_first(id, self@.difference(other@)),
                None => self@.difference(other@) == Set::<EndpointId>::empty(),
            },
    {
        let mut i: usize = 0;
        while i < self.ids.len()
            invariant
                i <= self.ids@.len(),
                self.wf(),
                other.wf(),
                forall|j: int| 0 <= j < i ==> other@.contains(#[trigger] self.ids@[j]),
            decreases self.ids@.len() - i,
        {
            let one = self.ids[i];
            if !other.contains(&one) {
                proof {
                    let rest = self@.difference(other@);
                    assert(self.ids@[i as int] == one);
                    assert forall|id: EndpointId| #[trigger] rest.contains(id) implies id == one
                        || one.precedes(id) by {
                        let k = choose|k: int| 0 <= k < self.ids@.len() && self.ids@[k] == id;
                        if k > i {
                            assert(self.ids@[i as int].precedes(self.ids@[k]));
                        }
                    }
                }
                return Some(one);
            }
            i += 1;
        }
        proof {
            let rest = self@.difference(other@);
            assert forall|id: EndpointId| !rest.contains(id) by {
                if self@.contains(id) {
                    let k = choose|k: int| 0 <= k < self.ids@.len() && self.ids@[k] == id;
                    assert(other@.contains(self.ids@[k]));
                }
            }
            assert(rest =~= Set::<EndpointId>::empty());
        }
        None
    }
}

/// The first of some ids is one of them that precedes all others, so there is
/// only one.
pub proof fn law_there_is_one_first(one: EndpointId, other: EndpointId, set: Set<EndpointId>)
    requires
        is_first(one, set),
    ensures
        set.contains(one),
        set.contains(other) && other != one ==> one.precedes(other),
        is_first(other, set) ==> other == one,
{
}

} // verus!
