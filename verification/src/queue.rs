//! Bounded frame queues.
//!
//! The device adapter moves opaque frames between the hardware and the
//! stack through two fixed-capacity queues, one per direction. Capacity
//! never grows; a producer that finds the queue full is told so and must
//! yield and retry or drop the frame — the same explicit policy in both
//! directions. Frames are handed over in arrival order.

use vstd::prelude::*;

verus! {

/// The fixed capacity of each direction's frame queue.
pub const FRAME_QUEUE_CAPACITY: usize = 4;

/// A fixed-capacity, first-in-first-out queue of opaque frames.
pub struct PacketQueue {
    /// The queued frames, oldest first. Holds at most `capacity` entries.
    pub frames: Vec<Vec<u8>>,
    /// The fixed bound; set once, never grown.
    pub capacity: usize,
}

impl View for PacketQueue {
    type V = Seq<Seq<u8>>;

    /// The queued frames' bytes, oldest first.
    open spec fn view(&self) -> Seq<Seq<u8>> {
        self.frames@.map_values(|f: Vec<u8>| f@)
    }
}

impl PacketQueue {
    /// The queue never holds more than its fixed capacity.
    pub open spec fn wf(self) -> bool {
        &&& self.capacity >= 1
        &&& self.frames@.len() <= self.capacity
    }

    /// An empty queue with the given fixed capacity.
    pub fn new(capacity: usize) -> (q: PacketQueue)
        requires
            capacity >= 1,
        ensures
            q.wf(),
            q@ == Seq::<Seq<u8>>::empty(),
            q.capacity == capacity,
    {
        let q = PacketQueue { frames: Vec::new(), capacity };
        assert(q@ =~= Seq::<Seq<u8>>::empty());
        q
    }

    /// How many frames are queued.
    pub fn len(&self) -> (n: usize)
        ensures
            n == self@.len(),
    {
        self.frames.len()
    }

    /// Whether a producer would be refused right now.
    pub fn is_full(&self) -> (r: bool)
        ensures
            r == (self@.len() == self.capacity as nat),
    {
        self.frames.len() == self.capacity
    }

    /// Appends a frame, or refuses it when the queue is full. On refusal
    /// nothing changes and the caller must yield and retry, or drop the
    /// frame; it is never queued partially.
    pub fn enqueue(&mut self, frame: Vec<u8>) -> (r: bool)
        requires
            old(self).wf(),
        ensures
            final(self).wf(),
            final(self).capacity == old(self).capacity,
            r == (old(self)@.len() < old(self).capacity as nat),
            r ==> final(self)@ == old(self)@.push(frame@),
            !r ==> final(self)@ == old(self)@,
    {
        if self.frames.len() < self.capacity {
            self.frames.push(frame);
            assert(self@ =~= old(self)@.push(frame@));
            true
        } else {
            false
        }
    }

    /// Removes and returns the oldest frame, or `None` when the queue is
    /// empty.
    pub fn dequeue(&mut self) -> (r: Option<Vec<u8>>)
        requires
            old(self).wf(),
        ensures
            final(self).wf(),
            final(self).capacity == old(self).capacity,
            old(self)@.len() == 0 ==> r is None && final(self)@ == old(self)@,
            old(self)@.len() > 0 ==> (r matches Some(f) && f@ == old(self)@[0]
                && final(self)@ == old(self)@.drop_first()),
    {
        if self.frames.len() == 0 {
            None
        } else {
            let f = self.frames.remove(0);
            assert(self@ =~= old(self)@.drop_first());
            Some(f)
        }
    }
}

/// The board's queue pair: four frames in each direction, transmit first.
pub fn board_packet_queues() -> (r: (PacketQueue, PacketQueue))
    ensures
        r.0.wf(),
        r.1.wf(),
        r.0.capacity == FRAME_QUEUE_CAPACITY,
        r.1.capacity == FRAME_QUEUE_CAPACITY,
        r.0@ == Seq::<Seq<u8>>::empty(),
        r.1@ == Seq::<Seq<u8>>::empty(),
{
    (PacketQueue::new(FRAME_QUEUE_CAPACITY), PacketQueue::new(FRAME_QUEUE_CAPACITY))
}

} // verus!
