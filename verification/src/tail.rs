//! The live-tail backpressure buffer: a bounded FIFO that absorbs events
//! published while no subscriber is connected.  Insertion beyond capacity
//! evicts the oldest entry, keeping the buffer biased toward the freshest
//! events; draining hands events back oldest first and never reorders them.

use std::collections::VecDeque;

use vstd::prelude::*;

use crate::events::EventData;

verus! {

/// What one failed publish does to the buffered sequence: append, evicting
/// the oldest entry first when the buffer is full.
pub open spec fn spec_offer(buf: Seq<EventData>, cap: int, ev: EventData) -> Seq<EventData> {
    if buf.len() >= cap {
        buf.skip(1).push(ev)
    } else {
        buf.push(ev)
    }
}

/// The buffered sequence after offering a whole run of events in order.
pub open spec fn spec_offer_all(buf: Seq<EventData>, cap: int, evs: Seq<EventData>) -> Seq<
    EventData,
>
    decreases evs.len(),
{
    if evs.len() == 0 {
        buf
    } else {
        spec_offer_all(spec_offer(buf, cap, evs[0]), cap, evs.skip(1))
    }
}

/// The last `cap` elements of a sequence (all of it when shorter).
pub open spec fn spec_tail_of(s: Seq<EventData>, cap: int) -> Seq<EventData> {
    if s.len() <= cap {
        s
    } else {
        s.skip(s.len() - cap)
    }
}

/// Per log class, the bounded FIFO of events that could not be delivered to
/// any live subscriber.
pub struct LiveTailBuffer {
    buf: VecDeque<EventData>,
    cap: usize,
}

impl LiveTailBuffer {
    /// The buffered events, oldest first.
    pub closed spec fn view(&self) -> Seq<EventData> {
        self.buf@
    }

    /// The fixed capacity ceiling.
    pub closed spec fn spec_cap(&self) -> int {
        self.cap as int
    }

    /// The buffer never grows beyond its capacity.
    pub open spec fn wf(&self) -> bool {
        self.view().len() <= self.spec_cap() && self.spec_cap() >= 1
    }

    /// A fresh, empty buffer with the given ceiling.
    pub fn new(cap: usize) -> (r: LiveTailBuffer)
        requires
            cap >= 1,
        ensures
            r.wf(),
            r@ == Seq::<EventData>::empty(),
            r.spec_cap() == cap,
    {
        LiveTailBuffer { buf: VecDeque::new(), cap }
    }

    /// How many events are waiting.
    pub fn len(&self) -> (r: usize)
        ensures
            r == self@.len(),
    {
        self.buf.len()
    }

    /// Buffers an event that found no subscriber, evicting the oldest entry
    /// first if the buffer is already full.
    pub fn buffer_event(&mut self, ev: EventData)
        requires
            old(self).wf(),
        ensures
            final(self).wf(),
            final(self)@ == spec_offer(old(self)@, old(self).spec_cap(), ev),
            final(self).spec_cap() == old(self).spec_cap(),
    {
        if self.buf.len() >= self.cap {
            let _ = self.buf.pop_front();
        }
        self.buf.push_back(ev);
    }

    /// Hands back the oldest buffered event for re-publication, removing it.
    pub fn pop_oldest(&mut self) -> (r: Option<EventData>)
        requires
            old(self).wf(),
        ensures
            final(self).wf(),
            final(self).spec_cap() == old(self).spec_cap(),
            match r {
                Some(ev) => old(self)@.len() > 0 && ev == old(self)@[0] && final(self)@ == old(
                    self,
                )@.skip(1),
                None => old(self)@.len() == 0 && final(self)@ == old(self)@,
            },
    {
        let r = self.buf.pop_front();
        proof {
            if old(self)@.len() == 0 {
                assert(final(self)@ =~= old(self)@);
            }
        }
        r
    }

    /// Puts an event that still found no subscriber back at the front, so
    /// that draining never reorders the buffer.
    pub fn restore_oldest(&mut self, ev: EventData)
        requires
            old(self).wf(),
            old(self)@.len() < old(self).spec_cap(),
        ensures
            final(self).wf(),
            final(self).spec_cap() == old(self).spec_cap(),
            final(self)@ == seq![ev] + old(self)@,
    {
        self.buf.push_front(ev);
        assert(final(self)@ =~= seq![ev] + old(self)@);
    }
}

/// Offering any run of events keeps the buffer at its capacity or below,
/// and once the run is at least as long as the capacity, the buffer holds
/// exactly the most recent `cap` events of the run, in original order.
pub proof fn lemma_tail_buffer_bound(buf: Seq<EventData>, cap: int, evs: Seq<EventData>)
    requires
        cap >= 1,
        buf.len() <= cap,
    ensures
        spec_offer_all(buf, cap, evs).len() <= cap,
        evs.len() >= cap ==> spec_offer_all(buf, cap, evs) == evs.skip(evs.len() - cap),
{
    lemma_offer_all_tail(buf, cap, evs);
    if evs.len() >= cap {
        assert(spec_tail_of(buf + evs, cap) =~= evs.skip(evs.len() - cap)) by {
            assert((buf + evs).len() - cap >= buf.len());
        }
    }
}

/// The buffered sequence is always the tail of everything ever offered.
proof fn lemma_offer_all_tail(buf: Seq<EventData>, cap: int, evs: Seq<EventData>)
    requires
        cap >= 1,
        buf.len() <= cap,
    ensures
        spec_offer_all(buf, cap, evs) == spec_tail_of(buf + evs, cap),
    decreases evs.len(),
{
    if evs.len() == 0 {
        assert(buf + evs =~= buf);
    } else {
        let b2 = spec_offer(buf, cap, evs[0]);
        assert(b2.len() <= cap);
        lemma_offer_all_tail(b2, cap, evs.skip(1));
        if buf.len() < cap {
            assert(b2 + evs.skip(1) =~= buf + evs);
        } else {
            assert(b2 + evs.skip(1) =~= (buf + evs).skip(1));
            let s = buf + evs;
            assert(s.len() >= cap + 1);
            if s.skip(1).len() <= cap {
                assert(spec_tail_of(s.skip(1), cap) =~= spec_tail_of(s, cap));
            } else {
                assert(s.skip(1).skip(s.skip(1).len() - cap) =~= s.skip(s.len() - cap));
            }
        }
    }
}

} // verus!
