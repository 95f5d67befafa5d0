//! The descriptor side-channel, which ferries file descriptors alongside a
//! serialized payload, and the wrapper that sends a descriptor through it.
//!
//! A serializer stages each descriptor it meets and writes the slot's index in
//! its place; the framing layer harvests the staged descriptors and sends them
//! as ancillary data. On the other side the received descriptors are staged in
//! the same order, and a deserializer claims each one by the index it reads.

use vstd::prelude::*;

verus! {

/// The descriptors that are still in their slots, in slot order.
pub open spec fn present(slots: Seq<Option<i32>>) -> Seq<i32>
    decreases slots.len(),
{
    if slots.len() == 0 {
        Seq::<i32>::empty()
    } else {
        match slots.last() {
            Some(fd) => present(slots.drop_last()).push(fd),
            None => present(slots.drop_last()),
        }
    }
}

/// One occupied slot for each descriptor, in order.
pub open spec fn staged(fds: Seq<i32>) -> Seq<Option<i32>> {
    fds.map_values(|fd: i32| Some(fd))
}

/// Staging descriptors and harvesting them again loses and reorders nothing.
pub proof fn lemma_present_staged(fds: Seq<i32>)
    ensures
        present(staged(fds)) == fds,
    decreases fds.len(),
{
    if fds.len() > 0 {
        assert(staged(fds).drop_last() =~= staged(fds.drop_last()));
        lemma_present_staged(fds.drop_last());
        assert(fds.drop_last().push(fds.last()) =~= fds);
    }
}

/// A descriptor keeps its index across a transfer: when the descriptors that
/// were staged on one side are harvested, sent, and staged on the other side
/// as they arrive, the slots of the receiver are those of the sender.
pub proof fn lemma_transfer_keeps_slots(fds: Seq<i32>)
    ensures
        staged(present(staged(fds))) == staged(fds),
{
    lemma_present_staged(fds);
}

/// Claiming a slot removes exactly its descriptor from those present, and
/// claiming an empty slot removes nothing.
pub proof fn lemma_present_claim(slots: Seq<Option<i32>>, index: int)
    requires
        0 <= index < slots.len(),
    ensures
        slots[index] is None ==> present(slots.update(index, None)) == present(slots),
        present(slots.update(index, None)).len() + (if slots[index] is Some {
            1int
        } else {
            0int
        }) == present(slots).len(),
    decreases slots.len(),
{
    let claimed = slots.update(index, None);
    if index == slots.len() - 1 {
        assert(claimed.drop_last() =~= slots.drop_last());
    } else {
        assert(claimed.drop_last() =~= slots.drop_last().update(index, None));
        lemma_present_claim(slots.drop_last(), index);
    }
}

/// The slots after the given claims were made, one after the other. A claim
/// of a slot that does not exist changes nothing, and neither does a second
/// claim of the same slot.
pub open spec fn claimed(slots: Seq<Option<i32>>, claims: Seq<int>) -> Seq<Option<i32>>
    decreases claims.len(),
{
    if claims.len() == 0 {
        slots
    } else {
        let before = claimed(slots, claims.drop_last());
        if 0 <= claims.last() < before.len() {
            before.update(claims.last(), None)
        } else {
            before
        }
    }
}

/// After a sequence of claims a slot is empty if it was claimed, and holds
/// what it held if it was not.
pub proof fn lemma_claimed_slots(slots: Seq<Option<i32>>, claims: Seq<int>)
    ensures
        claimed(slots, claims).len() == slots.len(),
        forall|i: int|
            0 <= i < slots.len() ==> #[trigger] claimed(slots, claims)[i] == if claims.contains(i) {
                None
            } else {
                slots[i]
            },
    decreases claims.len(),
{
    if claims.len() > 0 {
        let earlier = claims.drop_last();
        lemma_claimed_slots(slots, earlier);
        assert forall|i: int| 0 <= i < slots.len() implies #[trigger] claimed(slots, claims)[i]
            == if claims.contains(i) {
            None
        } else {
            slots[i]
        } by {
            if earlier.contains(i) {
                let k = choose|k: int| 0 <= k < earlier.len() && earlier[k] == i;
                assert(claims[k] == i);
            }
            if claims.contains(i) && !earlier.contains(i) {
                let k = choose|k: int| 0 <= k < claims.len() && claims[k] == i;
                if k < claims.len() - 1 {
                    assert(earlier[k] == i);
                }
            }
            if claims.last() == i {
                assert(claims[claims.len() - 1] == i);
            }
        }
    }
}

/// No descriptor is present exactly when every slot is empty.
pub proof fn lemma_none_present(slots: Seq<Option<i32>>)
    ensures
        present(slots).len() == 0 <==> forall|i: int| 0 <= i < slots.len() ==> slots[i] is None,
    decreases slots.len(),
{
    if slots.len() > 0 {
        let front = slots.drop_last();
        lemma_none_present(front);
        if present(slots).len() == 0 {
            assert forall|i: int| 0 <= i < slots.len() implies slots[i] is None by {
                if i < slots.len() - 1 {
                    assert(front[i] == slots[i]);
                }
            }
        }
        if forall|i: int| 0 <= i < slots.len() ==> slots[i] is None {
            assert forall|i: int| 0 <= i < front.len() implies front[i] is None by {
                assert(front[i] == slots[i]);
            }
            assert(slots.last() == slots[slots.len() - 1]);
        }
    }
}

/// A receive ends with an empty side-channel exactly when the decoder claimed
/// every descriptor of the frame.
///
/// When the descriptors of a frame were staged and the decoder made its
/// claims, in whatever order, none is left in the side-channel if and only if
/// each of them was claimed. That is when the transfer is closed with success
/// (see [`SideChannel::end_transfer`]), and the side-channel is empty after
/// it either way.
pub proof fn lemma_receive_ends_clean(fds: Seq<i32>, claims: Seq<int>)
    ensures
        present(claimed(staged(fds), claims)).len() == 0 <==> forall|i: int|
            0 <= i < fds.len() ==> claims.contains(i),
{
    let slots = staged(fds);
    let after = claimed(slots, claims);
    lemma_claimed_slots(slots, claims);
    lemma_none_present(after);
    if present(after).len() == 0 {
        assert forall|i: int| 0 <= i < fds.len() implies claims.contains(i) by {
            assert(after[i] is None);
            assert(slots[i] is Some);
        }
    }
    if forall|i: int| 0 <= i < fds.len() ==> claims.contains(i) {
        assert forall|i: int| 0 <= i < after.len() implies after[i] is None by {
            assert(claims.contains(i));
        }
    }
}

/// An ordered buffer of descriptor slots.
///
/// Each slot holds a descriptor until it is claimed. The buffer belongs to one
/// transfer at a time: it holds no descriptor before a transfer starts and
/// none after it ends.
#[derive(Debug)]
pub struct SideChannel {
    slots: Vec<Option<i32>>,
}

impl View for SideChannel {
    type V = Seq<Option<i32>>;

    closed spec fn view(&self) -> Seq<Option<i32>> {
        self.slots@
    }
}

impl SideChannel {
    /// A side-channel without slots.
    pub fn new() -> (channel: SideChannel)
        ensures
            channel@ == Seq::<Option<i32>>::empty(),
    {
        SideChannel { slots: Vec::new() }
    }

    /// Replaces the slots by one occupied slot for each of `fds` and returns
    /// the descriptors that were still unclaimed, in slot order.
    pub fn swap_fds(&mut self, fds: Vec<i32>) -> (unclaimed: Vec<i32>)
        ensures
            final(self)@ == staged(fds@),
            unclaimed@ == present(old(self)@),
    {
        let mut slots: Vec<Option<i32>> = Vec::new();
        let mut i: usize = 0;
        while i < fds.len()
            invariant
                i <= fds.len(),
                slots@ == staged(fds@.take(i as int)),
            decreases fds.len() - i,
        {
            slots.push(Some(fds[i]));
            proof {
                assert(fds@.take(i + 1) =~= fds@.take(i as int).push(fds@[i as int]));
                assert(slots@ =~= staged(fds@.take(i + 1)));
            }
            i = i + 1;
        }
        proof {
            assert(fds@.take(fds@.len() as int) =~= fds@);
        }
        std::mem::swap(&mut self.slots, &mut slots);
        let mut unclaimed: Vec<i32> = Vec::new();
        let mut j: usize = 0;
        while j < slots.len()
            invariant
                j <= slots.len(),
                unclaimed@ == present(slots@.take(j as int)),
            decreases slots.len() - j,
        {
            proof {
                assert(slots@.take(j + 1).drop_last() =~= slots@.take(j as int));
                assert(slots@.take(j + 1).last() == slots@[j as int]);
            }
            match slots[j] {
                Some(fd) => {
                    unclaimed.push(fd);
                },
                None => {},
            }
            j = j + 1;
        }
        proof {
            assert(slots@.take(slots@.len() as int) =~= slots@);
        }
        unclaimed
    }

    /// Opens a transfer: clears the slots that the last transfer left behind,
    /// all of them claimed.
    ///
    /// A transfer starts from a side-channel that holds no descriptor. One
    /// that still holds a descriptor when a transfer is about to start has an
    /// orphan in it, of a value that was encoded and never sent or of a frame
    /// whose descriptors were not all claimed; no transfer may start on it.
    pub fn begin_transfer(&mut self)
        requires
            present(old(self)@).len() == 0,
        ensures
            final(self)@ == Seq::<Option<i32>>::empty(),
    {
        self.slots.clear();
    }

    /// Closes a transfer: empties the side-channel and tells whether every
    /// descriptor of the transfer was claimed. The transfer succeeded only if
    /// none was left; those that were left are handed back, in slot order, so
    /// that they can be closed.
    pub fn end_transfer(&mut self) -> (outcome: Result<(), Vec<i32>>)
        ensures
            final(self)@ == Seq::<Option<i32>>::empty(),
            match outcome {
                Ok(_) => present(old(self)@).len() == 0,
                Err(orphans) => orphans@ == present(old(self)@) && orphans@.len() > 0,
            },
    {
        let orphans = self.swap_fds(Vec::new());
        proof {
            assert(staged(Seq::<i32>::empty()) =~= Seq::<Option<i32>>::empty());
        }
        if orphans.len() == 0 {
            Ok(())
        } else {
            Err(orphans)
        }
    }

    /// Stages a descriptor in a new slot and returns the slot's index.
    pub fn push_fd(&mut self, fd: i32) -> (index: usize)
        ensures
            final(self)@ == old(self)@.push(Some(fd)),
            index == old(self)@.len(),
    {
        let index = self.slots.len();
        self.slots.push(Some(fd));
        index
    }

    /// Claims the descriptor in slot `index`.
    ///
    /// Returns `None`, and changes nothing, where there is no such slot or its
    /// descriptor was claimed before.
    pub fn take_fd(&mut self, index: usize) -> (fd: Option<i32>)
        ensures
            index < old(self)@.len() ==> fd == old(self)@[index as int] && final(self)@ == old(
                self,
            )@.update(index as int, None),
            index >= old(self)@.len() ==> fd is None && final(self)@ == old(self)@,
    {
        if index < self.slots.len() {
            let fd = self.slots[index];
            self.slots.set(index, None);
            fd
        } else {
            None
        }
    }

    /// Number of descriptors that are staged and not claimed.
    pub fn pending(&self) -> (n: usize)
        ensures
            n == present(self@).len(),
    {
        let mut n: usize = 0;
        let mut i: usize = 0;
        while i < self.slots.len()
            invariant
                i <= self.slots.len(),
                n == present(self.slots@.take(i as int)).len(),
                n <= i,
            decreases self.slots.len() - i,
        {
            proof {
                assert(self.slots@.take(i + 1).drop_last() =~= self.slots@.take(i as int));
                assert(self.slots@.take(i + 1).last() == self.slots@[i as int]);
            }
            match self.slots[i] {
                Some(_) => {
                    n = n + 1;
                },
                None => {},
            }
            i = i + 1;
        }
        proof {
            assert(self.slots@.take(self.slots@.len() as int) =~= self.slots@);
        }
        n
    }
}

/// Wrapper type that allows sending a file descriptor to and from the zygote.
///
/// A wrapped raw descriptor travels as the index of its slot in the
/// side-channel, while the descriptor itself goes the way of ancillary data.
#[derive(Debug)]
pub struct WireFd<T>(T);

impl<T> WireFd<T> {
    /// The wrapped value.
    pub closed spec fn inner(self) -> T {
        self.0
    }

    /// Wraps a value.
    pub fn new(val: T) -> (wrapped: WireFd<T>)
        ensures
            wrapped.inner() == val,
    {
        WireFd(val)
    }

    /// Unwraps the value.
    pub fn into_inner(self) -> (val: T)
        ensures
            val == self.inner(),
    {
        self.0
    }

    /// A reference to the wrapped value.
    pub fn get(&self) -> (val: &T)
        ensures
            *val == self.inner(),
    {
        &self.0
    }
}

impl<T> From<T> for WireFd<T> {
    fn from(value: T) -> (wrapped: WireFd<T>) {
        WireFd(value)
    }
}

impl<T> vstd::std_specs::convert::FromSpecImpl<T> for WireFd<T> {
    open spec fn obeys_from_spec() -> bool {
        true
    }

    closed spec fn from_spec(value: T) -> WireFd<T> {
        WireFd(value)
    }
}

/// Converting a value into the wrapper wraps that value.
pub proof fn lemma_from_wraps<T>(value: T)
    ensures
        <WireFd<T> as vstd::std_specs::convert::FromSpec<T>>::from_spec(value).inner() == value,
{
}

impl WireFd<i32> {
    /// Stages the descriptor in the side-channel and returns the index that is
    /// written to the payload in its place.
    pub fn serialize(&self, channel: &mut SideChannel) -> (index: usize)
        ensures
            final(channel)@ == old(channel)@.push(Some(self.inner())),
            index == old(channel)@.len(),
    {
        channel.push_fd(self.0)
    }

    /// Claims the descriptor that the index read from the payload stands for.
    ///
    /// The slot must hold a descriptor: a payload that names a slot which does
    /// not exist or was claimed before does not match what was sent.
    pub fn deserialize(index: usize, channel: &mut SideChannel) -> (wrapped: WireFd<i32>)
        requires
            index < old(channel)@.len(),
            old(channel)@[index as int] is Some,
        ensures
            Some(wrapped.inner()) == old(channel)@[index as int],
            final(channel)@ == old(channel)@.update(index as int, None),
    {
        WireFd(channel.take_fd(index).unwrap())
    }
}

} // verus!
