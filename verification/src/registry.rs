use vstd::prelude::*;
use crate::events::Event;
use crate::events::EventConsumer;

verus! {

/// The registry of event consumers of one capture episode: a mapping from
/// subscriber id to consumer, kept in insertion order.
///
/// Mutation (insert, remove) requires exclusive access; the coordinator
/// brackets every mutation so that dispatch and mutation never interleave.
/// Because subscriber ids are handed out from a monotone counter, insertion
/// order is id order, which gives the dispatcher its stable delivery order.
pub struct HandlerRegistry<H> {
    /// The registered subscriber ids, in insertion order.
    pub ids: Vec<usize>,
    /// The registered consumers, `handlers[i]` owned by `ids[i]`.
    pub handlers: Vec<H>,
}

impl<H: EventConsumer> HandlerRegistry<H> {
    /// The subscriber ids, in insertion order.
    pub open spec fn ids_seq(&self) -> Seq<usize> {
        self.ids@
    }

    /// The observation sequence of each registered consumer, in the same
    /// order as the ids.
    pub open spec fn logs(&self) -> Seq<Seq<Event>> {
        Seq::new(self.handlers@.len(), |i: int| self.handlers@[i].observed())
    }

    /// Well-formed: one consumer per id, and ids strictly increasing.
    pub open spec fn wf(&self) -> bool {
        &&& self.handlers@.len() == self.ids@.len()
        &&& forall|i: int, j: int|
            0 <= i < j < self.ids@.len() ==> self.ids@[i] < self.ids@[j]
    }

    /// Creates an empty registry.
    pub fn new() -> (r: Self)
        ensures
            r.wf(),
            r.ids_seq() == Seq::<usize>::empty(),
            r.logs() == Seq::<Seq<Event>>::empty(),
    {
        let r = HandlerRegistry { ids: Vec::new(), handlers: Vec::new() };
        proof {
            assert(r.logs() =~= Seq::<Seq<Event>>::empty());
        }
        r
    }

    /// The number of registered consumers.
    pub fn len(&self) -> (r: usize)
        requires
            self.wf(),
        ensures
            r == self.ids_seq().len(),
    {
        self.ids.len()
    }

    /// Whether no consumer is registered.
    pub fn is_empty(&self) -> (r: bool)
        requires
            self.wf(),
        ensures
            r == (self.ids_seq().len() == 0),
    {
        self.ids.len() == 0
    }

    /// The position of `id` in the registry, if it is registered.
    fn find_index(&self, id: usize) -> (r: Option<usize>)
        requires
            self.wf(),
        ensures
            match r {
                Some(i) => i < self.ids_seq().len() && self.ids_seq()[i as int] == id,
                None => !self.ids_seq().contains(id),
            },
    {
        let mut i: usize = 0;
        while i < self.ids.len()
            invariant
                self.wf(),
                i <= self.ids@.len(),
                forall|k: int| 0 <= k < i ==> self.ids@[k] != id,
            decreases self.ids@.len() - i,
        {
            if self.ids[i] == id {
                return Some(i);
            }
            i = i + 1;
        }
        None
    }

    /// Registers a consumer under a fresh id, which must be larger than
    /// every registered id.
    pub fn insert(&mut self, id: usize, handler: H)
        requires
            old(self).wf(),
            forall|i: int|
                0 <= i < old(self).ids_seq().len() ==> old(self).ids_seq()[i] < id,
        ensures
            final(self).wf(),
            final(self).ids_seq() == old(self).ids_seq().push(id),
            final(self).logs() == old(self).logs().push(handler.observed()),
    {
        self.ids.push(id);
        self.handlers.push(handler);
        proof {
            assert forall|i: int, j: int|
                0 <= i < j < self.ids@.len() implies self.ids@[i] < self.ids@[j] by {
                assert(self.ids@ == old(self).ids@.push(id));
                assert(self.ids@[i] == old(self).ids@[i]);
                if j == self.ids@.len() - 1 {
                    assert(old(self).ids_seq()[i] < id);
                    assert(self.ids@[j] == id);
                } else {
                    assert(self.ids@[j] == old(self).ids@[j]);
                    assert(old(self).ids@[i] < old(self).ids@[j]);
                }
            }
            assert(final(self).logs() =~= old(self).logs().push(handler.observed()));
        }
    }

    /// Removes the consumer registered under `id` and hands it back; returns
    /// `None`, changing nothing, when `id` is not registered.
    pub fn remove(&mut self, id: usize) -> (r: Option<H>)
        requires
            old(self).wf(),
        ensures
            final(self).wf(),
            !old(self).ids_seq().contains(id) ==> {
                &&& r is None
                &&& final(self).ids_seq() == old(self).ids_seq()
                &&& final(self).logs() == old(self).logs()
            },
            old(self).ids_seq().contains(id) ==> {
                let i = old(self).ids_seq().index_of(id);
                &&& r matches Some(h) && h.observed() == old(self).logs()[i]
                &&& final(self).ids_seq() == old(self).ids_seq().remove(i)
                &&& final(self).logs() == old(self).logs().remove(i)
            },
    {
        match self.find_index(id) {
            None => None,
            Some(i) => {
                let h = self.handlers.remove(i);
                self.ids.remove(i);
                proof {
                    let pre = *old(self);
                    // `id` occurs only once, so the found index is the index
                    // `index_of` denotes.
                    let j = pre.ids_seq().index_of(id);
                    assert(pre.ids_seq().contains(id));
                    assert(0 <= j < pre.ids_seq().len() && pre.ids_seq()[j] == id);
                    assert(j == i);
                    assert(final(self).logs() =~= pre.logs().remove(i as int));
                }
                Some(h)
            }
        }
    }

    /// Delivers one event to every registered consumer, in registration
    /// order: each consumer observes exactly that event, appended once.
    pub fn deliver_to_all(&mut self, event: Event)
        requires
            old(self).wf(),
        ensures
            final(self).wf(),
            final(self).ids_seq() == old(self).ids_seq(),
            final(self).logs() == Seq::new(
                old(self).logs().len(),
                |i: int| old(self).logs()[i].push(event),
            ),
    {
        let mut i: usize = 0;
        while i < self.handlers.len()
            invariant
                self.wf(),
                i <= self.handlers@.len(),
                self.ids@ == old(self).ids@,
                self.handlers@.len() == old(self).handlers@.len(),
                forall|k: int|
                    0 <= k < i ==> self.handlers@[k].observed()
                        == old(self).handlers@[k].observed().push(event),
                forall|k: int|
                    i <= k < self.handlers@.len()
                        ==> self.handlers@[k] == old(self).handlers@[k],
            decreases self.handlers@.len() - i,
        {
            let ghost pre = self.handlers@;
            let mut h = self.handlers.remove(i);
            h.handle_event(event);
            self.handlers.insert(i, h);
            proof {
                assert forall|k: int| 0 <= k < pre.len() implies #[trigger] self.handlers@[k]
                    == (if k == i { h } else { pre[k] }) by {
                    assert(self.handlers@ == pre.remove(i as int).insert(i as int, h));
                }
            }
            i = i + 1;
        }
        proof {
            assert(final(self).logs() =~= Seq::new(
                old(self).logs().len(),
                |i: int| old(self).logs()[i].push(event),
            ));
        }
    }
}

} // verus!
