use vstd::prelude::*;

use crate::frame::{append_bytes, buf_bytes, empty_buf, frame_bytes, Buf, MTU};
use crate::ring::{Descriptor, RingBuffer};

verus! {

/// Slot index named by a descriptor.
pub open spec fn slot_of(d: Descriptor) -> nat {
    d.encoded_addr as nat
}

/// The ownership rule of one direction of a transport with `n` buffer slots.
///
/// Every slot below `n` is in exactly one place: queued once on the free ring,
/// queued once on the used ring, or lent out to the party that claimed it.
pub open spec fn exclusive(free: Seq<Descriptor>, used: Seq<Descriptor>, lent: Set<nat>, n: nat) -> bool {
    &&& lent.finite()
    &&& free.len() + used.len() + lent.len() == n
    &&& forall|a: nat| #[trigger] lent.contains(a) ==> a < n
    &&& forall|i: int|
        0 <= i < free.len() ==> slot_of(#[trigger] free[i]) < n && !lent.contains(slot_of(free[i]))
    &&& forall|i: int|
        0 <= i < used.len() ==> slot_of(#[trigger] used[i]) < n && !lent.contains(slot_of(used[i]))
    &&& forall|i: int, j: int|
        0 <= i < j < free.len() ==> slot_of(#[trigger] free[i]) != slot_of(#[trigger] free[j])
    &&& forall|i: int, j: int|
        0 <= i < j < used.len() ==> slot_of(#[trigger] used[i]) != slot_of(#[trigger] used[j])
    &&& forall|i: int, j: int|
        0 <= i < free.len() && 0 <= j < used.len() ==> slot_of(#[trigger] free[i]) != slot_of(
            #[trigger] used[j],
        )
}

/// The descriptors `0 .. n`, each naming a full-size slot, in slot order.
pub open spec fn seeded(n: nat) -> Seq<Descriptor> {
    Seq::new(n, |i: int| Descriptor { encoded_addr: i as usize, len: MTU as u32, cookie: 0 })
}

proof fn lemma_take_front(free: Seq<Descriptor>, used: Seq<Descriptor>, lent: Set<nat>, n: nat)
    requires
        exclusive(free, used, lent, n),
        free.len() > 0,
    ensures
        exclusive(free.drop_first(), used, lent.insert(slot_of(free[0])), n),
{
    let f2 = free.drop_first();
    assert forall|i: int, j: int| 0 <= i < j < f2.len() implies slot_of(f2[i]) != slot_of(f2[j]) by {
        assert(f2[i] == free[i + 1] && f2[j] == free[j + 1]);
    }
    assert forall|i: int| 0 <= i < f2.len() implies slot_of(#[trigger] f2[i]) < n && !lent.insert(
        slot_of(free[0]),
    ).contains(slot_of(f2[i])) by {
        assert(f2[i] == free[i + 1]);
    }
    assert forall|i: int| 0 <= i < used.len() implies !lent.insert(slot_of(free[0])).contains(
        slot_of(#[trigger] used[i]),
    ) by {
        assert(slot_of(free[0]) != slot_of(used[i]));
    }
    assert forall|i: int, j: int| 0 <= i < f2.len() && 0 <= j < used.len() implies slot_of(
        #[trigger] f2[i],
    ) != slot_of(#[trigger] used[j]) by {
        assert(f2[i] == free[i + 1]);
    }
}

proof fn lemma_give_back(free: Seq<Descriptor>, used: Seq<Descriptor>, lent: Set<nat>, n: nat, d: Descriptor)
    requires
        exclusive(free, used, lent, n),
        lent.contains(slot_of(d)),
    ensures
        exclusive(free.push(d), used, lent.remove(slot_of(d)), n),
{
    let f2 = free.push(d);
    let l2 = lent.remove(slot_of(d));
    assert forall|i: int, j: int| 0 <= i < j < f2.len() implies slot_of(#[trigger] f2[i]) != slot_of(
        #[trigger] f2[j],
    ) by {
        if j == free.len() {
            assert(f2[i] == free[i]);
        } else {
            assert(f2[i] == free[i] && f2[j] == free[j]);
        }
    }
    assert forall|i: int| 0 <= i < f2.len() implies slot_of(#[trigger] f2[i]) < n && !l2.contains(
        slot_of(f2[i]),
    ) by {
        if i < free.len() {
            assert(f2[i] == free[i]);
        }
    }
    assert forall|i: int, j: int| 0 <= i < f2.len() && 0 <= j < used.len() implies slot_of(
        #[trigger] f2[i],
    ) != slot_of(#[trigger] used[j]) by {
        if i < free.len() {
            assert(f2[i] == free[i]);
        }
    }
}

proof fn lemma_swap(free: Seq<Descriptor>, used: Seq<Descriptor>, lent: Set<nat>, n: nat)
    requires
        exclusive(free, used, lent, n),
    ensures
        exclusive(used, free, lent, n),
{
}

proof fn lemma_slot_range(lo: nat, hi: nat)
    requires
        lo <= hi,
    ensures
        Set::new(|a: nat| lo <= a < hi).finite(),
        Set::new(|a: nat| lo <= a < hi).len() == hi - lo,
    decreases hi - lo,
{
    if lo == hi {
        assert(Set::new(|a: nat| lo <= a < hi) =~= Set::<nat>::empty());
    } else {
        lemma_slot_range(lo + 1, hi);
        assert(Set::new(|a: nat| lo + 1 <= a < hi).insert(lo) =~= Set::new(|a: nat| lo <= a < hi));
    }
}

/// One direction of a transport: a free ring, a used ring and the frame
/// buffers that their descriptors name.
///
/// A party claims a slot by dequeuing its descriptor and gives it up by
/// enqueuing a descriptor for it; between the two the slot is lent to that
/// party, which alone may touch its buffer.
pub struct Pool {
    free: RingBuffer,
    used: RingBuffer,
    bufs: Vec<Buf>,
    lent: Ghost<Set<nat>>,
}

impl Pool {
    /// Descriptors of slots ready to be filled, oldest first.
    pub closed spec fn free_view(&self) -> Seq<Descriptor> {
        self.free@
    }

    /// Descriptors of filled slots awaiting the other side, oldest first.
    pub closed spec fn used_view(&self) -> Seq<Descriptor> {
        self.used@
    }

    /// Slots currently claimed and on neither ring.
    pub closed spec fn lent(&self) -> Set<nat> {
        self.lent@
    }

    /// Number of buffer slots.
    pub closed spec fn size(&self) -> nat {
        self.bufs@.len()
    }

    /// Contents of the buffers, by slot.
    pub closed spec fn frames(&self) -> Seq<Seq<u8>> {
        self.bufs@.map_values(|b: Buf| frame_bytes(b))
    }

    /// Both rings are consistent and can each hold every slot.
    pub closed spec fn layout_ok(&self) -> bool {
        &&& self.free.wf()
        &&& self.used.wf()
        &&& self.free.capacity_spec() == self.bufs@.len()
        &&& self.used.capacity_spec() == self.bufs@.len()
    }

    /// The pool is consistent and every slot is in exactly one place.
    pub open spec fn wf(&self) -> bool {
        &&& self.layout_ok()
        &&& self.frames().len() == self.size()
        &&& exclusive(self.free_view(), self.used_view(), self.lent(), self.size())
    }

    /// Freshly mapped memory: both rings empty, nothing lent, all buffers empty.
    pub open spec fn is_blank(&self) -> bool {
        &&& self.layout_ok()
        &&& self.frames().len() == self.size()
        &&& self.free_view().len() == 0
        &&& self.used_view().len() == 0
        &&& self.lent() == Set::<nat>::empty()
        &&& forall|i: int| 0 <= i < self.size() ==> self.frames()[i].len() == 0
    }

    /// A pool of `n` empty buffers with empty rings.
    pub fn new(n: usize) -> (r: Pool)
        requires
            n > 0,
        ensures
            r.is_blank(),
            r.size() == n,
    {
        let mut bufs: Vec<Buf> = Vec::new();
        let mut k: usize = 0;
        while k < n
            invariant
                k <= n,
                bufs@.len() == k,
                forall|i: int| 0 <= i < k ==> frame_bytes(#[trigger] bufs@[i]).len() == 0,
            decreases n - k,
        {
            bufs.push(empty_buf());
            k = k + 1;
        }
        Pool { free: RingBuffer::new(n), used: RingBuffer::new(n), bufs, lent: Ghost(Set::empty()) }
    }

    /// Puts a descriptor for every slot on the free ring, in slot order.
    pub fn seed(&mut self)
        requires
            old(self).is_blank(),
        ensures
            final(self).wf(),
            final(self).size() == old(self).size(),
            final(self).free_view() == seeded(old(self).size()),
            final(self).used_view().len() == 0,
            final(self).lent() == Set::<nat>::empty(),
            forall|i: int| 0 <= i < final(self).size() ==> final(self).frames()[i].len() == 0,
    {
        let n = self.bufs.len();
        self.lent = Ghost(Set::new(|a: nat| 0 <= a < n));
        proof {
            lemma_slot_range(0, n as nat);
            assert forall|i: int| 0 <= i < n implies frame_bytes(#[trigger] self.bufs@[i]).len() == 0 by {
                assert(old(self).frames()[i].len() == 0);
            }
        }
        let mut k: usize = 0;
        while k < n
            invariant
                k <= n,
                n == self.bufs@.len(),
                self.layout_ok(),
                self.used@.len() == 0,
                self.free@ == seeded(k as nat),
                self.lent@ == Set::new(|a: nat| k <= a < n),
                self.lent@.finite(),
                self.lent@.len() == n - k,
                exclusive(self.free@, self.used@, self.lent@, n as nat),
                forall|i: int| 0 <= i < n ==> frame_bytes(#[trigger] self.bufs@[i]).len() == 0,
            decreases n - k,
        {
            let d = Descriptor::new(k, MTU as u32, 0);
            proof {
                lemma_give_back(self.free@, self.used@, self.lent@, n as nat, d);
            }
            let _ = self.free.enqueue(d);
            self.lent = Ghost(self.lent@.remove(k as nat));
            assert(self.free@ =~= seeded((k + 1) as nat));
            assert(self.lent@ =~= Set::new(|a: nat| k + 1 <= a < n));
            k = k + 1;
        }
        assert(self.lent@ =~= Set::<nat>::empty());
    }

    pub fn free_len(&self) -> (r: usize)
        requires
            self.wf(),
        ensures
            r == self.free_view().len(),
    {
        self.free.len()
    }

    pub fn used_len(&self) -> (r: usize)
        requires
            self.wf(),
        ensures
            r == self.used_view().len(),
    {
        self.used.len()
    }

    /// The `i`-th descriptor on the free ring, counting from the front.
    pub fn free_at(&self, i: usize) -> (r: Descriptor)
        requires
            self.wf(),
            i < self.free_view().len(),
        ensures
            r == self.free_view()[i as int],
    {
        self.free.peek(i)
    }

    /// The `i`-th descriptor on the used ring, counting from the front.
    pub fn used_at(&self, i: usize) -> (r: Descriptor)
        requires
            self.wf(),
            i < self.used_view().len(),
        ensures
            r == self.used_view()[i as int],
    {
        self.used.peek(i)
    }

    /// The bytes held in slot `slot`.
    pub fn frame_of(&self, slot: usize) -> (r: &[u8])
        requires
            slot < self.size(),
        ensures
            r@ == self.frames()[slot as int],
            r@.len() <= MTU,
    {
        buf_bytes(&self.bufs[slot])
    }

    /// A copy of the buffer in slot `slot`.
    pub fn copy_frame(&self, slot: usize) -> (r: Buf)
        requires
            slot < self.size(),
        ensures
            frame_bytes(r) == self.frames()[slot as int],
    {
        crate::frame::buf_from_bytes(buf_bytes(&self.bufs[slot]))
    }

    /// Claims the slot at the front of the free ring, if there is one.
    pub fn claim_free(&mut self) -> (r: Option<Descriptor>)
        requires
            old(self).wf(),
        ensures
            final(self).wf(),
            final(self).size() == old(self).size(),
            final(self).frames() == old(self).frames(),
            final(self).used_view() == old(self).used_view(),
            old(self).free_view().len() > 0 ==> {
                &&& r == Some(old(self).free_view()[0])
                &&& final(self).free_view() == old(self).free_view().drop_first()
                &&& final(self).lent() == old(self).lent().insert(slot_of(old(self).free_view()[0]))
            },
            old(self).free_view().len() == 0 ==> {
                &&& r is None
                &&& *final(self) == *old(self)
            },
    {
        let ghost (f, u, l, n) = (self.free@, self.used@, self.lent@, self.size());
        match self.free.dequeue() {
            Ok(d) => {
                proof {
                    lemma_take_front(f, u, l, n);
                }
                self.lent = Ghost(self.lent@.insert(slot_of(d)));
                Some(d)
            },
            Err(_) => None,
        }
    }

    /// Claims the slot at the front of the used ring, if there is one.
    pub fn claim_used(&mut self) -> (r: Option<Descriptor>)
        requires
            old(self).wf(),
        ensures
            final(self).wf(),
            final(self).size() == old(self).size(),
            final(self).frames() == old(self).frames(),
            final(self).free_view() == old(self).free_view(),
            old(self).used_view().len() > 0 ==> {
                &&& r == Some(old(self).used_view()[0])
                &&& final(self).used_view() == old(self).used_view().drop_first()
                &&& final(self).lent() == old(self).lent().insert(slot_of(old(self).used_view()[0]))
            },
            old(self).used_view().len() == 0 ==> {
                &&& r is None
                &&& *final(self) == *old(self)
            },
    {
        let ghost (f, u, l, n) = (self.free@, self.used@, self.lent@, self.size());
        match self.used.dequeue() {
            Ok(d) => {
                proof {
                    lemma_swap(f, u, l, n);
                    lemma_take_front(u, f, l, n);
                    lemma_swap(u.drop_first(), f, l.insert(slot_of(d)), n);
                }
                self.lent = Ghost(self.lent@.insert(slot_of(d)));
                Some(d)
            },
            Err(_) => None,
        }
    }

    /// Gives the lent slot `slot` back to the free ring, as a full-size
    /// descriptor.
    pub fn release_free(&mut self, slot: usize)
        requires
            old(self).wf(),
            old(self).lent().contains(slot as nat),
        ensures
            final(self).wf(),
            final(self).size() == old(self).size(),
            final(self).frames() == old(self).frames(),
            final(self).used_view() == old(self).used_view(),
            final(self).free_view() == old(self).free_view().push(Descriptor::new_spec(slot)),
            final(self).lent() == old(self).lent().remove(slot as nat),
    {
        let d = Descriptor::new(slot, MTU as u32, 0);
        let ghost (f, u, l, n) = (self.free@, self.used@, self.lent@, self.size());
        proof {
            lemma_give_back(f, u, l, n, d);
            vstd::set::axiom_set_remove_len(l, slot as nat);
        }
        let _ = self.free.enqueue(d);
        self.lent = Ghost(self.lent@.remove(slot as nat));
    }

    /// Puts the lent slot `slot` on the used ring, as a full-size descriptor.
    pub fn release_used(&mut self, slot: usize)
        requires
            old(self).wf(),
            old(self).lent().contains(slot as nat),
        ensures
            final(self).wf(),
            final(self).size() == old(self).size(),
            final(self).frames() == old(self).frames(),
            final(self).free_view() == old(self).free_view(),
            final(self).used_view() == old(self).used_view().push(Descriptor::new_spec(slot)),
            final(self).lent() == old(self).lent().remove(slot as nat),
    {
        let d = Descriptor::new(slot, MTU as u32, 0);
        let ghost (f, u, l, n) = (self.free@, self.used@, self.lent@, self.size());
        proof {
            lemma_swap(f, u, l, n);
            lemma_give_back(u, f, l, n, d);
            lemma_swap(u.push(d), f, l.remove(slot as nat), n);
            vstd::set::axiom_set_remove_len(l, slot as nat);
        }
        let _ = self.used.enqueue(d);
        self.lent = Ghost(self.lent@.remove(slot as nat));
    }

    /// Empties the buffer of the lent slot `slot`.
    pub fn clear_frame(&mut self, slot: usize)
        requires
            old(self).wf(),
            old(self).lent().contains(slot as nat),
        ensures
            final(self).wf(),
            final(self).size() == old(self).size(),
            final(self).frames() == old(self).frames().update(slot as int, Seq::<u8>::empty()),
            final(self).free_view() == old(self).free_view(),
            final(self).used_view() == old(self).used_view(),
            final(self).lent() == old(self).lent(),
    {
        self.bufs.set(slot, empty_buf());
        assert(self.frames() =~= old(self).frames().update(slot as int, Seq::<u8>::empty()));
    }

    /// Replaces the contents of the lent slot `slot` with `bytes`.
    pub fn write_frame(&mut self, slot: usize, bytes: &[u8])
        requires
            old(self).wf(),
            old(self).lent().contains(slot as nat),
            bytes@.len() <= MTU,
        ensures
            final(self).wf(),
            final(self).size() == old(self).size(),
            final(self).frames() == old(self).frames().update(slot as int, bytes@),
            final(self).free_view() == old(self).free_view(),
            final(self).used_view() == old(self).used_view(),
            final(self).lent() == old(self).lent(),
    {
        let b = crate::frame::buf_from_bytes(bytes);
        self.bufs.set(slot, b);
        assert(self.frames() =~= old(self).frames().update(slot as int, bytes@));
    }
}

} // verus!
