//! The fixed-capacity container and its forward iterator.

use crate::errors::RunOutOfCapacity;
use vstd::prelude::*;

verus! {

/// A fixed-capacity, heap-allocated array of `T`.
///
/// The capacity is chosen at construction and never changes afterwards: the
/// container never grows, never reallocates, never shrinks. The live elements
/// form a prefix of the backing buffer, in insertion order; its model is the
/// sequence of those elements, reached through `@`.
///
/// When the container is dropped, the destructors of the live elements run
/// before the buffer is released. Reading an element by copy (`get`, and the
/// cursor's `next`) is offered only for `Copy` element types, so that the
/// copy never duplicates ownership; for other types, read through `get_ref`.
pub struct StaticHeapArray<T> {
    buf: Vec<T>,
    capacity: usize,
}

impl<T> View for StaticHeapArray<T> {
    type V = Seq<T>;

    /// The sequence of elements appended so far, in insertion order.
    closed spec fn view(&self) -> Seq<T> {
        self.buf@
    }
}

impl<T> StaticHeapArray<T> {
    /// The immutable capacity chosen at construction.
    pub closed spec fn cap(&self) -> nat {
        self.capacity as nat
    }

    #[verifier::type_invariant]
    spec fn wf(&self) -> bool {
        self.buf@.len() <= self.capacity
    }

    /// Constructs an empty container that can hold exactly `cap` elements.
    /// The backing buffer is allocated once, up front; if the allocator
    /// fails, its failure handler aborts the process.
    pub fn new(cap: usize) -> (r: Self)
        ensures
            r@ == Seq::<T>::empty(),
            r.cap() == cap,
    {
        StaticHeapArray { buf: Vec::with_capacity(cap), capacity: cap }
    }

    /// Appends `item` at the end of the live prefix. Fails with
    /// `RunOutOfCapacity`, leaving the container unchanged, exactly when the
    /// container is already at capacity; a failed append drops `item`.
    pub fn push(&mut self, item: T) -> (r: Result<(), RunOutOfCapacity>)
        ensures
            final(self).cap() == old(self).cap(),
            old(self)@.len() < old(self).cap() ==> r is Ok && final(self)@ == old(self)@.push(
                item,
            ),
            old(self)@.len() >= old(self).cap() ==> r == Err::<(), RunOutOfCapacity>(
                (RunOutOfCapacity {}),
            ) && final(self)@ == old(self)@,
    {
        proof {
            use_type_invariant(&*self);
        }
        if self.is_full() {
            return Err(RunOutOfCapacity {});
        }
        let mut b: Vec<T> = Vec::new();
        std::mem::swap(&mut b, &mut self.buf);
        b.push(item);
        self.buf = b;
        Ok(())
    }

    /// True exactly when the container holds as many elements as its capacity.
    pub fn is_full(&self) -> (b: bool)
        ensures
            b == (self@.len() == self.cap()),
    {
        self.get_size() == self.get_cap()
    }

    /// True exactly when `index` lies outside the live prefix.
    pub fn is_out_of_index(&self, index: usize) -> (b: bool)
        ensures
            b == (index >= self@.len()),
    {
        index >= self.get_size()
    }

    /// The capacity chosen at construction.
    pub fn get_cap(&self) -> (r: usize)
        ensures
            r == self.cap(),
    {
        self.capacity
    }

    /// The number of elements appended so far; it never exceeds the capacity.
    pub fn get_size(&self) -> (r: usize)
        ensures
            r == self@.len(),
            r <= self.cap(),
    {
        proof {
            use_type_invariant(&*self);
        }
        self.buf.len()
    }

    /// Borrows the element at `index`, or `None` when `index` lies outside
    /// the live prefix.
    pub fn get_ref(&self, index: usize) -> (r: Option<&T>)
        ensures
            index < self@.len() ==> r is Some && *r.unwrap() == self@[index as int],
            index >= self@.len() ==> r is None,
    {
        match self.is_out_of_index(index) {
            true => None,
            false => Some(&self.buf[index]),
        }
    }

    /// Borrows the element at `index` mutably, or `None` when `index` lies
    /// outside the live prefix. Writing through the borrow changes that slot
    /// alone: the capacity, the length and every other slot stay as they were.
    pub fn get_mut(&mut self, index: usize) -> (r: Option<&mut T>)
        ensures
            final(self).cap() == old(self).cap(),
            index >= old(self)@.len() ==> r is None && final(self)@ == old(self)@,
            index < old(self)@.len() ==> r is Some && *r.unwrap() == old(self)@[index as int]
                && final(self)@ == old(self)@.update(index as int, *final(r.unwrap())),
    {
        proof {
            use_type_invariant(&*self);
        }
        match self.is_out_of_index(index) {
            true => None,
            false => Some(&mut self.buf[index]),
        }
    }

    /// A fresh forward cursor over the live prefix, starting at position 0.
    pub fn iter(&self) -> (it: StaticHeapArrayIter<'_, T>)
        ensures
            it.src() == self@,
            it.pos() == 0,
    {
        StaticHeapArrayIter::new(self)
    }
}

impl<T: Copy> StaticHeapArray<T> {
    /// Constructs a container at capacity `N` holding the elements of `arr`
    /// in order.
    pub fn from<const N: usize>(arr: [T; N]) -> (r: Self)
        ensures
            r@ == arr@,
            r.cap() == N,
            r@.len() == N,
    {
        let mut r = StaticHeapArray::new(N);
        let mut i: usize = 0;
        while i < N
            invariant
                i <= N,
                r.cap() == N,
                r@ == arr@.subrange(0, i as int),
            decreases N - i,
        {
            r.push(arr[i]).unwrap();
            proof {
                assert(r@ =~= arr@.subrange(0, i + 1));
            }
            i += 1;
        }
        proof {
            assert(r@ =~= arr@);
        }
        r
    }

    /// Returns a copy of the element at `index`, or `None` when `index` lies
    /// outside the live prefix. The container is unchanged: this is a read,
    /// not a removal.
    pub fn get(&self, index: usize) -> (r: Option<T>)
        ensures
            index < self@.len() ==> r == Some(self@[index as int]),
            index >= self@.len() ==> r is None,
    {
        match self.is_out_of_index(index) {
            true => None,
            false => Some(self.buf[index]),
        }
    }
}

impl<T> vstd::std_specs::core::IndexSpecImpl<usize> for StaticHeapArray<T> {
    open spec fn index_req(&self, index: &usize) -> bool {
        *index < self@.len()
    }
}

impl<T> std::ops::Index<usize> for StaticHeapArray<T> {
    type Output = T;

    /// Borrows the element at `idx`. Positions outside the live prefix are
    /// excluded by contract: this is the infallible form of `get_ref`.
    fn index(&self, idx: usize) -> (r: &T)
        ensures
            *r == self@[idx as int],
    {
        self.get_ref(idx).unwrap()
    }
}

/// Appending `x` to a container holding the elements `s` makes the length
/// `s.len() + 1`, puts `x` at position `s.len()`, and leaves every earlier
/// element where it was.
pub proof fn lemma_read_fidelity<T>(s: Seq<T>, x: T)
    ensures
        s.push(x).len() == s.len() + 1,
        s.push(x)[s.len() as int] == x,
        forall|j: int| 0 <= j < s.len() ==> s.push(x)[j] == s[j],
{
}

/// Writing `y` at position `i` of a container holding the elements `s`
/// changes that position alone: the length is unchanged, position `i` holds
/// `y`, and every other position holds what it held before.
pub proof fn lemma_mutation_locality<T>(s: Seq<T>, i: int, y: T)
    requires
        0 <= i < s.len(),
    ensures
        s.update(i, y).len() == s.len(),
        s.update(i, y)[i] == y,
        forall|j: int| 0 <= j < s.len() && j != i ==> s.update(i, y)[j] == s[j],
{
}

/// A forward cursor over a container's live prefix. It borrows the container
/// for its own lifetime and yields one element per call of `next`, in
/// insertion order, until the prefix is exhausted.
pub struct StaticHeapArrayIter<'a, T> {
    s: &'a StaticHeapArray<T>,
    reading_index: usize,
}

impl<'a, T> StaticHeapArrayIter<'a, T> {
    /// The elements of the container the cursor was created on.
    pub closed spec fn src(&self) -> Seq<T> {
        self.s@
    }

    /// The position of the next element to yield.
    pub closed spec fn pos(&self) -> nat {
        self.reading_index as nat
    }

    /// A fresh cursor over `array`, starting at position 0.
    pub fn new(array: &'a StaticHeapArray<T>) -> (it: Self)
        ensures
            it.src() == array@,
            it.pos() == 0,
    {
        StaticHeapArrayIter { s: array, reading_index: 0 }
    }
}

impl<'a, T: Copy> StaticHeapArrayIter<'a, T> {
    /// Yields a copy of the element at the current position and advances, or
    /// reports the end of the sequence, leaving the cursor unchanged, exactly
    /// when every element has been yielded.
    pub fn next(&mut self) -> (r: Option<T>)
        ensures
            final(self).src() == old(self).src(),
            (r, final(self).pos()) == iter_step(old(self).src(), old(self).pos()),
            old(self).pos() < old(self).src().len() ==> r == Some(
                old(self).src()[old(self).pos() as int],
            ) && final(self).pos() == old(self).pos() + 1,
            old(self).pos() >= old(self).src().len() ==> r is None && final(self).pos() == old(
                self,
            ).pos(),
    {
        let size = self.s.get_size();
        if self.reading_index >= size {
            return None;
        }
        let result = self.s.get(self.reading_index);
        self.reading_index += 1;
        result
    }
}

/// One call of `next`, on the model: on the sequence `s` at position `pos`,
/// the value yielded and the position after the call.
pub open spec fn iter_step<T>(s: Seq<T>, pos: nat) -> (Option<T>, nat) {
    if pos < s.len() {
        (Some(s[pos as int]), pos + 1)
    } else {
        (None, pos)
    }
}

/// The position of a cursor on the sequence `s` after `steps` calls of
/// `next`, starting from position `pos`.
pub open spec fn iter_pos_after<T>(s: Seq<T>, pos: nat, steps: nat) -> nat
    decreases steps,
{
    if steps == 0 {
        pos
    } else {
        iter_step(s, iter_pos_after(s, pos, (steps - 1) as nat)).1
    }
}

/// The values yielded by the first `steps` calls of `next` on a fresh
/// cursor over the sequence `s`, in order.
pub open spec fn iter_yielded<T>(s: Seq<T>, steps: nat) -> Seq<T>
    decreases steps,
{
    if steps == 0 {
        Seq::empty()
    } else {
        let prev = iter_yielded(s, (steps - 1) as nat);
        if steps - 1 < s.len() {
            prev.push(s[steps - 1])
        } else {
            prev
        }
    }
}

/// A fresh cursor yields exactly the elements it was created over, in
/// order: after `steps` calls of `next`, the values yielded so far are the
/// first `min(steps, s.len())` elements of `s`, and the cursor stands at
/// that position; once `steps` reaches `s.len()`, the whole of `s` has been
/// yielded.
pub proof fn lemma_iteration_equals_prefix<T>(s: Seq<T>, steps: nat)
    ensures
        iter_pos_after(s, 0, steps) == if steps <= s.len() {
            steps
        } else {
            s.len()
        },
        iter_yielded(s, steps) == s.take(
            if steps <= s.len() {
                steps as int
            } else {
                s.len() as int
            },
        ),
        steps >= s.len() ==> iter_yielded(s, steps) == s,
    decreases steps,
{
    if steps == 0 {
        assert(iter_yielded(s, 0) =~= s.take(0));
        assert(s.len() == 0 ==> s.take(0) =~= s);
    } else {
        let k = (steps - 1) as nat;
        lemma_iteration_equals_prefix(s, k);
        if k < s.len() {
            assert(iter_yielded(s, steps) =~= s.take(steps as int));
        }
        assert(steps >= s.len() ==> s.take(s.len() as int) =~= s);
    }
}

/// Once a cursor has reported the end of the sequence, it stays there:
/// after any number of further calls of `next` from a position at or past
/// the end, the position is unchanged and the next call again yields
/// end-of-sequence.
pub proof fn lemma_iterator_end_is_sticky<T>(s: Seq<T>, pos: nat, steps: nat)
    requires
        pos >= s.len(),
    ensures
        iter_pos_after(s, pos, steps) == pos,
        iter_step(s, iter_pos_after(s, pos, steps)).0 is None,
    decreases steps,
{
    if steps > 0 {
        lemma_iterator_end_is_sticky(s, pos, (steps - 1) as nat);
    }
}

} // verus!
