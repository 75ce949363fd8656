use std::collections::VecDeque;
use vstd::prelude::*;

verus! {

/// What a push leaves in a queue of capacity `cap` whose contents were
/// `win`: the new element is appended, and the oldest element leaves first
/// when the queue already stands at capacity.
pub open spec fn spec_push_contents<T>(win: Seq<T>, cap: int, elem: T) -> Seq<T> {
    if win.len() < cap {
        win.push(elem)
    } else {
        win.skip(1).push(elem)
    }
}

/// What a push evicts from a queue of capacity `cap` whose contents were
/// `win`: nothing below capacity, else the oldest element.
pub open spec fn spec_evicted<T>(win: Seq<T>, cap: int) -> Option<T> {
    if win.len() < cap {
        Option::None
    } else {
        Option::Some(win[0])
    }
}

/// The contents of a queue of capacity `cap` after pushing `items`, oldest
/// first, into an empty one.
pub open spec fn spec_fill<T>(cap: int, items: Seq<T>) -> Seq<T>
    decreases items.len(),
{
    if items.len() == 0 {
        Seq::empty()
    } else {
        spec_push_contents(spec_fill(cap, items.drop_last()), cap, items.last())
    }
}

/// A FIFO buffer with a fixed capacity: pushing past capacity evicts the
/// oldest element and hands it back.
pub struct EvictingQue<T> {
    deque: VecDeque<T>,
    capacity: usize,
}

impl<T> View for EvictingQue<T> {
    type V = Seq<T>;

    closed spec fn view(&self) -> Seq<T> {
        self.deque@
    }
}

impl<T> EvictingQue<T> {
    /// The fixed capacity the queue was created with.
    pub closed spec fn spec_capacity(&self) -> usize {
        self.capacity
    }

    /// The capacity is at least one and the queue never holds more elements
    /// than it.
    pub open spec fn wf(&self) -> bool {
        1 <= self.spec_capacity() && self@.len() <= self.spec_capacity()
    }

    pub fn new(capacity: usize) -> (r: EvictingQue<T>)
        requires
            1 <= capacity,
        ensures
            r.wf(),
            r@ == Seq::<T>::empty(),
            r.spec_capacity() == capacity,
    {
        EvictingQue { deque: VecDeque::<T>::with_capacity(capacity), capacity }
    }

    /// Appends `elem`; at capacity the oldest element is evicted and
    /// returned, below it nothing is.
    pub fn push(&mut self, elem: T) -> (evicted: Option<T>)
        requires
            old(self).wf(),
        ensures
            final(self).wf(),
            final(self).spec_capacity() == old(self).spec_capacity(),
            final(self)@ == spec_push_contents(old(self)@, old(self).spec_capacity() as int, elem),
            evicted == spec_evicted(old(self)@, old(self).spec_capacity() as int),
    {
        let evicted_elem: Option<T> = if self.deque.len() >= self.capacity {
            self.deque.pop_front()
        } else {
            Option::None
        };
        self.deque.push_back(elem);
        proof {
            if old(self)@.len() >= old(self).spec_capacity() {
                assert(self.deque@ =~= old(self)@.skip(1).push(elem));
            }
        }
        evicted_elem
    }

    /// Current occupancy.
    pub fn len(&self) -> (r: usize)
        ensures
            r == self@.len(),
    {
        self.deque.len()
    }

    /// The fixed capacity; it never changes after construction.
    pub fn capacity(&self) -> (r: usize)
        ensures
            r == self.spec_capacity(),
    {
        self.capacity
    }

    /// The element at `index`, counting from the oldest.
    pub fn get(&self, index: usize) -> (r: &T)
        requires
            index < self@.len(),
        ensures
            *r == self@[index as int],
    {
        &self.deque[index]
    }

    /// Builds a queue of capacity `value.1` by pushing the elements of the
    /// array `value.0` in order; the earliest elements are evicted where
    /// the array is longer than the capacity.
    pub fn from<const S: usize>(value: ([T; S], usize)) -> (r: EvictingQue<T>) where T: Copy
        requires
            1 <= value.1,
        ensures
            r.wf(),
            r.spec_capacity() == value.1,
            r@ == spec_fill(value.1 as int, value.0@),
    {
        let (arr, capacity) = value;
        let mut deque = EvictingQue::new(capacity);
        let mut i: usize = 0;
        while i < S
            invariant
                i <= S,
                deque.wf(),
                deque.spec_capacity() == capacity,
                deque@ == spec_fill(capacity as int, arr@.take(i as int)),
            decreases S - i,
        {
            deque.push(arr[i]);
            proof {
                assert(arr@.take(i + 1).drop_last() =~= arr@.take(i as int));
                assert(arr@.take(i + 1).last() == arr@[i as int]);
            }
            i += 1;
        }
        proof {
            assert(arr@.take(S as int) =~= arr@);
        }
        deque
    }
}

/// Pushing at most `cap` items into an empty queue keeps them all, in
/// order, with no eviction yet possible.
pub proof fn lemma_fill_below_capacity<T>(cap: int, items: Seq<T>)
    requires
        1 <= cap,
        items.len() <= cap,
    ensures
        spec_fill(cap, items) == items,
    decreases items.len(),
{
    if items.len() == 0 {
        assert(spec_fill(cap, items) =~= items);
    } else {
        lemma_fill_below_capacity(cap, items.drop_last());
        assert(spec_fill(cap, items) =~= items);
    }
}

/// The queue's occupancy never exceeds its capacity, whatever is pushed.
pub proof fn lemma_fill_bounded<T>(cap: int, items: Seq<T>)
    requires
        1 <= cap,
    ensures
        spec_fill(cap, items).len() <= cap,
    decreases items.len(),
{
    if items.len() > 0 {
        lemma_fill_bounded(cap, items.drop_last());
    }
}

/// FIFO law: after pushing `cap + 1` items into an empty queue of capacity
/// `cap`, the occupancy is exactly `cap` and the last push evicted the
/// first item pushed.
pub proof fn lemma_fifo_eviction<T>(cap: int, items: Seq<T>)
    requires
        1 <= cap,
        items.len() == cap + 1,
    ensures
        spec_fill(cap, items).len() == cap,
        spec_evicted(spec_fill(cap, items.drop_last()), cap) == Option::Some(items[0]),
{
    lemma_fill_below_capacity(cap, items.drop_last());
}

} // verus!
