//! Fan-out of inbound events to independently paced consumers.
//!
//! The distributor owns one slot per consumer handle. Delivering an event
//! appends a copy to every live slot's buffer; a full buffer loses one event
//! according to that slot's own overflow policy and never holds up the
//! producer or any sibling slot. Each slot carries two ghost histories — the
//! events offered to it since registration and the events its reader has
//! taken — and the well-formedness invariant ties them to the buffer: while
//! no event was lost, what was offered is exactly what was taken followed by
//! what is still buffered, in order.

use crate::event::EventModel;
use crate::event::InboundEvent;
use vstd::prelude::*;
use vstd::pervasive::VecAdditionalExecFns;

verus! {

/// What a full buffer loses on delivery: the oldest buffered event, or the
/// newly arrived one. Either way the loss is confined to that one slot.
#[derive(Clone, Copy, PartialEq, Eq, Structural, Debug)]
pub enum OverflowPolicy {
    DropOldest,
    DropNewest,
}

/// Mathematical model of one consumer slot.
pub struct SlotModel {
    pub live: bool,
    pub capacity: nat,
    pub policy: OverflowPolicy,
    pub buf: Seq<EventModel>,
    pub offered: Seq<EventModel>,
    pub taken: Seq<EventModel>,
    pub dropped: nat,
}

/// The models of the buffered events, in arrival order.
pub open spec fn buf_model(v: Seq<InboundEvent>) -> Seq<EventModel> {
    Seq::new(v.len(), |i: int| v[i]@)
}

/// A slot's books balance: the buffer fits its capacity, every offered
/// event is accounted for as taken, buffered or dropped — and while none
/// was dropped, offered is exactly taken followed by buffered.
pub open spec fn slot_wf(s: SlotModel) -> bool {
    &&& s.capacity >= 1
    &&& s.buf.len() <= s.capacity
    &&& s.offered.len() == s.taken.len() + s.buf.len() + s.dropped
    &&& (s.dropped == 0 ==> s.offered == s.taken + s.buf)
}

/// How delivering `e` changes one slot: a function of that slot and the
/// event alone. A dead slot is untouched; a live one buffers the event,
/// shedding per its own policy when full.
pub open spec fn spec_deliver(s: SlotModel, e: EventModel) -> SlotModel {
    if !s.live {
        s
    } else if s.buf.len() < s.capacity {
        SlotModel { buf: s.buf.push(e), offered: s.offered.push(e), ..s }
    } else {
        match s.policy {
            OverflowPolicy::DropOldest => SlotModel {
                buf: s.buf.drop_first().push(e),
                offered: s.offered.push(e),
                dropped: (s.dropped + 1) as nat,
                ..s
            },
            OverflowPolicy::DropNewest => SlotModel {
                offered: s.offered.push(e),
                dropped: (s.dropped + 1) as nat,
                ..s
            },
        }
    }
}

/// How delivering `e` changes the whole registry: each slot by
/// `spec_deliver` of its own state, none by anything else.
pub open spec fn spec_distribute(ss: Seq<SlotModel>, e: EventModel) -> Seq<SlotModel> {
    Seq::new(ss.len(), |i: int| spec_deliver(ss[i], e))
}

struct ConsumerSlot {
    live: bool,
    capacity: usize,
    policy: OverflowPolicy,
    buf: Vec<InboundEvent>,
    offered: Ghost<Seq<EventModel>>,
    taken: Ghost<Seq<EventModel>>,
    dropped: Ghost<nat>,
}

impl View for ConsumerSlot {
    type V = SlotModel;

    closed spec fn view(&self) -> SlotModel {
        SlotModel {
            live: self.live,
            capacity: self.capacity as nat,
            policy: self.policy,
            buf: buf_model(self.buf@),
            offered: self.offered@,
            taken: self.taken@,
            dropped: self.dropped@,
        }
    }
}

/// An independent cursor into the event stream: the receive end of one
/// registered slot. It is the only witness to its slot, so giving it up
/// through `drop_handle` deregisters the slot for good.
pub struct ConsumerHandle {
    id: usize,
}

impl View for ConsumerHandle {
    type V = int;

    closed spec fn view(&self) -> int {
        self.id as int
    }
}

/// The fan-out registry: one slot per consumer handle ever registered,
/// dead slots kept as tombstones so handle ids stay stable.
pub struct EventDistributor {
    slots: Vec<ConsumerSlot>,
}

impl View for EventDistributor {
    type V = Seq<SlotModel>;

    closed spec fn view(&self) -> Seq<SlotModel> {
        Seq::new(self.slots@.len(), |i: int| self.slots@[i]@)
    }
}

impl EventDistributor {
    pub open spec fn wf(&self) -> bool {
        forall|i: int| 0 <= i < self@.len() ==> slot_wf(#[trigger] self@[i])
    }

    /// A distributor with no consumers yet.
    pub fn new() -> (r: EventDistributor)
        ensures
            r.wf(),
            r@.len() == 0,
    {
        EventDistributor { slots: Vec::new() }
    }

    /// Register a new consumer: an empty live slot with its own capacity
    /// and overflow policy. Its offered history starts empty — an event
    /// distributed before this call is never replayed to the new handle.
    pub fn new_consumer_handle(&mut self, capacity: usize, policy: OverflowPolicy) -> (h:
        ConsumerHandle)
        requires
            old(self).wf(),
            capacity >= 1,
        ensures
            final(self).wf(),
            h@ == old(self)@.len(),
            final(self)@.len() == old(self)@.len() + 1,
            forall|i: int| 0 <= i < old(self)@.len() ==> final(self)@[i] == old(self)@[i],
            final(self)@[h@] == (SlotModel {
                live: true,
                capacity: capacity as nat,
                policy,
                buf: Seq::empty(),
                offered: Seq::empty(),
                taken: Seq::empty(),
                dropped: 0,
            }),
    {
        let id = self.slots.len();
        let slot = ConsumerSlot {
            live: true,
            capacity,
            policy,
            buf: Vec::new(),
            offered: Ghost(Seq::empty()),
            taken: Ghost(Seq::empty()),
            dropped: Ghost(0),
        };
        self.slots.push(slot);
        proof {
            assert(final(self)@ =~= old(self)@.push(final(self)@[id as int]));
            assert(buf_model(Seq::<InboundEvent>::empty()) =~= Seq::<EventModel>::empty());
        }
        ConsumerHandle { id }
    }

    /// Deregister the handle's slot: it takes no part in any later
    /// delivery. The handle is given up with it.
    pub fn drop_handle(&mut self, h: ConsumerHandle)
        requires
            old(self).wf(),
            0 <= h@ < old(self)@.len(),
        ensures
            final(self).wf(),
            final(self)@.len() == old(self)@.len(),
            forall|i: int| 0 <= i < old(self)@.len() && i != h@ ==> final(self)@[i] == old(
                self,
            )@[i],
            final(self)@[h@] == (SlotModel { live: false, ..old(self)@[h@] }),
    {
        let mut slot = placeholder_slot();
        self.slots.set_and_swap(h.id, &mut slot);
        slot.live = false;
        self.slots.set_and_swap(h.id, &mut slot);
        proof {
            assert forall|i: int| 0 <= i < self@.len() implies slot_wf(#[trigger] self@[i]) by {
                assert(slot_wf(old(self)@[i]));
                if i != h@ {
                    assert(self@[i] == old(self)@[i]);
                }
            }
        }
    }

    /// Deliver one inbound event to every live slot. Each slot's next state
    /// is a function of that slot and the event alone: no slot's fullness,
    /// liveness or reader pace plays any part in what a sibling receives,
    /// and the call never waits on a full buffer.
    #[verifier::loop_isolation(false)]
    pub fn distribute(&mut self, e: &InboundEvent)
        requires
            old(self).wf(),
        ensures
            final(self).wf(),
            final(self)@ == spec_distribute(old(self)@, e@),
            final(self)@.len() == old(self)@.len(),
            forall|i: int| 0 <= i < old(self)@.len() ==> final(self)@[i] == spec_deliver(
                old(self)@[i],
                e@,
            ),
    {
        let n = self.slots.len();
        let mut i: usize = 0;
        while i < n
            invariant
                n == old(self)@.len(),
                self.slots@.len() == n,
                i <= n,
                forall|k: int| 0 <= k < i ==> self.slots@[k]@ == spec_deliver(
                    old(self)@[k],
                    e@,
                ),
                forall|k: int| i <= k < n ==> self.slots@[k] == old(self).slots@[k],
            decreases n - i,
        {
            let ghost prior: SlotModel = self.slots@[i as int]@;
            proof {
                assert(slot_wf(old(self)@[i as int]));
                assert(prior == old(self)@[i as int]);
            }
            let mut slot = placeholder_slot();
            self.slots.set_and_swap(i, &mut slot);
            if slot.live {
                if slot.buf.len() < slot.capacity {
                    let ghost b = slot.buf@;
                    slot.buf.push(e.duplicate());
                    proof {
                        assert(buf_model(slot.buf@) =~= buf_model(b).push(e@));
                    }
                } else {
                    match slot.policy {
                        OverflowPolicy::DropOldest => {
                            let ghost b = slot.buf@;
                            slot.buf.remove(0);
                            slot.buf.push(e.duplicate());
                            slot.dropped = Ghost(slot.dropped@ + 1);
                            proof {
                                assert(buf_model(slot.buf@) =~= buf_model(
                                    b,
                                ).drop_first().push(e@));
                            }
                        },
                        OverflowPolicy::DropNewest => {
                            slot.dropped = Ghost(slot.dropped@ + 1);
                        },
                    }
                }
                slot.offered = Ghost(slot.offered@.push(e@));
            }
            proof {
                assert(slot@ == spec_deliver(prior, e@));
            }
            self.slots.set_and_swap(i, &mut slot);
            i = i + 1;
        }
        proof {
            assert(self@ =~= spec_distribute(old(self)@, e@));
            assert forall|k: int| 0 <= k < self@.len() implies slot_wf(#[trigger] self@[k]) by {
                assert(slot_wf(old(self)@[k]));
                assert(self@[k] == spec_deliver(old(self)@[k], e@));
            }
        }
    }

    /// Take the oldest buffered event of the handle's slot, if any. Only
    /// that slot changes; the event taken joins its taken history, so the
    /// reader sees the offered events in order, each once.
    pub fn recv(&mut self, h: &ConsumerHandle) -> (r: Option<InboundEvent>)
        requires
            old(self).wf(),
            0 <= h@ < old(self)@.len(),
        ensures
            final(self).wf(),
            final(self)@.len() == old(self)@.len(),
            forall|i: int| 0 <= i < old(self)@.len() && i != h@ ==> final(self)@[i] == old(
                self,
            )@[i],
            match r {
                Option::None => old(self)@[h@].buf.len() == 0 && final(self)@[h@] == old(
                    self,
                )@[h@],
                Option::Some(ev) => {
                    &&& old(self)@[h@].buf.len() > 0
                    &&& ev@ == old(self)@[h@].buf[0]
                    &&& final(self)@[h@] == (SlotModel {
                        buf: old(self)@[h@].buf.drop_first(),
                        taken: old(self)@[h@].taken.push(ev@),
                        ..old(self)@[h@]
                    })
                },
            },
    {
        let mut slot = placeholder_slot();
        self.slots.set_and_swap(h.id, &mut slot);
        let r: Option<InboundEvent> = if slot.buf.len() == 0 {
            None
        } else {
            let ghost b = slot.buf@;
            let ev = slot.buf.remove(0);
            slot.taken = Ghost(slot.taken@.push(ev@));
            proof {
                assert(buf_model(slot.buf@) =~= buf_model(b).drop_first());
                let o = old(self)@[h@];
                assert(ev@ == o.buf[0]);
                if o.dropped == 0 {
                    assert(o.taken.push(o.buf[0]) + o.buf.drop_first() =~= o.taken + o.buf);
                }
            }
            Some(ev)
        };
        self.slots.set_and_swap(h.id, &mut slot);
        proof {
            assert forall|i: int| 0 <= i < self@.len() implies slot_wf(#[trigger] self@[i]) by {
                assert(slot_wf(old(self)@[i]));
                if i != h@ {
                    assert(self@[i] == old(self)@[i]);
                }
            }
        }
        r
    }

    /// How many events the handle's slot holds ready to be taken.
    pub fn pending(&self, h: &ConsumerHandle) -> (r: usize)
        requires
            self.wf(),
            0 <= h@ < self@.len(),
        ensures
            r == self@[h@].buf.len(),
    {
        self.slots[h.id].buf.len()
    }
}

fn placeholder_slot() -> ConsumerSlot {
    ConsumerSlot {
        live: false,
        capacity: 1,
        policy: OverflowPolicy::DropNewest,
        buf: Vec::new(),
        offered: Ghost(Seq::empty()),
        taken: Ghost(Seq::empty()),
        dropped: Ghost(0),
    }
}

/// While a slot has lost no event to overflow, the events offered to it
/// since its registration are exactly the events its reader took followed
/// by the events still buffered — in order, nothing duplicated, nothing
/// missing, whatever any other slot did meanwhile.
pub proof fn lemma_exactly_once_delivery(s: SlotModel)
    requires
        slot_wf(s),
        s.dropped == 0,
    ensures
        s.offered == s.taken + s.buf,
{
}

/// A deregistered slot takes no part in any later delivery: its histories
/// are frozen at deregistration, so a handle observes exactly the events
/// between its registration and its deregistration.
pub proof fn lemma_deregistered_slot_untouched(s: SlotModel, e: EventModel)
    requires
        !s.live,
    ensures
        spec_deliver(s, e) == s,
{
}

/// Delivery is isolated per consumer: two registries whose slot `i` agree
/// hand slot `i` the same next state when the same event is distributed,
/// however full, slow or dead every other slot may be.
pub proof fn lemma_consumer_isolation(
    ss1: Seq<SlotModel>,
    ss2: Seq<SlotModel>,
    e: EventModel,
    i: int,
)
    requires
        0 <= i < ss1.len(),
        0 <= i < ss2.len(),
        ss1[i] == ss2[i],
    ensures
        spec_distribute(ss1, e)[i] == spec_distribute(ss2, e)[i],
{
}

} // verus!
