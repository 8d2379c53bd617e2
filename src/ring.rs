use vstd::prelude::*;

verus! {

/// A reference to one frame buffer, passed by value through the rings.
#[derive(Clone, Copy, Debug, PartialEq, Eq, Structural)]
pub struct Descriptor {
    /// Index of the buffer slot in its pool.
    pub encoded_addr: usize,
    /// Byte count recorded with the slot.
    pub len: u32,
    /// Reserved; carried unchanged.
    pub cookie: usize,
}

impl Descriptor {
    /// The full-size descriptor of slot `slot`.
    pub open spec fn new_spec(slot: usize) -> Descriptor {
        Descriptor { encoded_addr: slot, len: crate::frame::MTU as u32, cookie: 0 }
    }

    pub fn new(encoded_addr: usize, len: u32, cookie: usize) -> (r: Descriptor)
        ensures
            r == (Descriptor { encoded_addr, len, cookie }),
    {
        Descriptor { encoded_addr, len, cookie }
    }

    pub fn encoded_addr(&self) -> (r: usize)
        ensures
            r == self.encoded_addr,
    {
        self.encoded_addr
    }
}

/// `enqueue` found the ring full.
#[derive(Clone, Copy, Debug, PartialEq, Eq, Structural)]
pub struct RingFull;

/// `dequeue` found the ring empty.
#[derive(Clone, Copy, Debug, PartialEq, Eq, Structural)]
pub struct RingEmpty;

/// A fixed-capacity circular FIFO of descriptors with one writer and one reader.
///
/// `slots` is the backing array; the queued descriptors are the `count` entries
/// that start at `head` and wrap around the end of the array.
pub struct RingBuffer {
    slots: Vec<Descriptor>,
    head: usize,
    count: usize,
}

/// Position in the backing array of the `i`-th queued entry.
pub open spec fn wrap_index(head: int, i: int, cap: int) -> int {
    if head + i < cap {
        head + i
    } else {
        head + i - cap
    }
}

impl RingBuffer {
    /// The ring is consistent: cursors lie within the backing array.
    pub closed spec fn wf(&self) -> bool {
        &&& self.slots@.len() > 0
        &&& self.head < self.slots@.len()
        &&& self.count <= self.slots@.len()
    }

    pub closed spec fn capacity_spec(&self) -> nat {
        self.slots@.len()
    }

    /// The queued descriptors, oldest first.
    pub closed spec fn view(&self) -> Seq<Descriptor> {
        Seq::new(
            self.count as nat,
            |i: int| self.slots@[wrap_index(self.head as int, i, self.slots@.len() as int)],
        )
    }

    /// An empty ring that holds at most `capacity` descriptors.
    pub fn new(capacity: usize) -> (r: RingBuffer)
        requires
            capacity > 0,
        ensures
            r.wf(),
            r@ == Seq::<Descriptor>::empty(),
            r.capacity_spec() == capacity,
    {
        let mut slots: Vec<Descriptor> = Vec::new();
        let mut k: usize = 0;
        while k < capacity
            invariant
                k <= capacity,
                slots@.len() == k,
            decreases capacity - k,
        {
            slots.push(Descriptor { encoded_addr: 0, len: 0, cookie: 0 });
            k = k + 1;
        }
        let r = RingBuffer { slots, head: 0, count: 0 };
        assert(r@ =~= Seq::<Descriptor>::empty());
        r
    }

    pub fn capacity(&self) -> (r: usize)
        requires
            self.wf(),
        ensures
            r == self.capacity_spec(),
    {
        self.slots.len()
    }

    pub fn len(&self) -> (r: usize)
        requires
            self.wf(),
        ensures
            r == self@.len(),
    {
        self.count
    }

    pub fn is_empty(&self) -> (r: bool)
        requires
            self.wf(),
        ensures
            r == (self@.len() == 0),
    {
        self.count == 0
    }

    pub fn is_full(&self) -> (r: bool)
        requires
            self.wf(),
        ensures
            r == (self@.len() == self.capacity_spec()),
    {
        self.count == self.slots.len()
    }

    /// The `i`-th queued descriptor, counting from the front.
    pub fn peek(&self, i: usize) -> (r: Descriptor)
        requires
            self.wf(),
            i < self@.len(),
        ensures
            r == self@[i as int],
    {
        let cap = self.slots.len();
        let at: usize = if self.head < cap - i {
            self.head + i
        } else {
            self.head - (cap - i)
        };
        self.slots[at]
    }

    /// Appends `d` at the back, or reports `RingFull` and leaves the ring as it was.
    pub fn enqueue(&mut self, d: Descriptor) -> (r: Result<(), RingFull>)
        requires
            old(self).wf(),
        ensures
            final(self).wf(),
            final(self).capacity_spec() == old(self).capacity_spec(),
            old(self)@.len() < old(self).capacity_spec() ==> {
                &&& r is Ok
                &&& final(self)@ == old(self)@.push(d)
            },
            old(self)@.len() == old(self).capacity_spec() ==> {
                &&& r == Err::<(), RingFull>(RingFull)
                &&& *final(self) == *old(self)
            },
    {
        let cap = self.slots.len();
        if self.count == cap {
            return Err(RingFull);
        }
        let tail: usize = if self.head < cap - self.count {
            self.head + self.count
        } else {
            self.head - (cap - self.count)
        };
        let ghost before = self@;
        self.slots.set(tail, d);
        self.count = self.count + 1;
        assert(self@ =~= before.push(d));
        Ok(())
    }

    /// Takes the descriptor at the front, or reports `RingEmpty` and leaves the
    /// ring as it was.
    pub fn dequeue(&mut self) -> (r: Result<Descriptor, RingEmpty>)
        requires
            old(self).wf(),
        ensures
            final(self).wf(),
            final(self).capacity_spec() == old(self).capacity_spec(),
            old(self)@.len() > 0 ==> {
                &&& r == Ok::<Descriptor, RingEmpty>(old(self)@[0])
                &&& final(self)@ == old(self)@.drop_first()
            },
            old(self)@.len() == 0 ==> {
                &&& r == Err::<Descriptor, RingEmpty>(RingEmpty)
                &&& *final(self) == *old(self)
            },
    {
        if self.count == 0 {
            return Err(RingEmpty);
        }
        let ghost before = self@;
        let d = self.slots[self.head];
        self.head = if self.head < self.slots.len() - 1 {
            self.head + 1
        } else {
            0
        };
        self.count = self.count - 1;
        assert(self@ =~= before.drop_first());
        Ok(d)
    }
}

} // verus!
