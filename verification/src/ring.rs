//! Hand-off buffers: fixed-capacity, most-recent-wins queues that bridge the
//! ingestion handlers and a downstream reader.

use std::collections::VecDeque;
use vstd::prelude::*;

verus! {

/// The last `capacity` items of `s`, in order (all of `s` if it is shorter).
pub open spec fn keep_last<T>(s: Seq<T>, capacity: nat) -> Seq<T> {
    if s.len() <= capacity {
        s
    } else {
        s.subrange(s.len() - capacity, s.len() as int)
    }
}

/// Contents of a buffer of the given capacity after `item` is pushed onto
/// contents `s`.
pub open spec fn push_spec<T>(s: Seq<T>, capacity: nat, item: T) -> Seq<T> {
    keep_last(s.push(item), capacity)
}

/// Contents after pushing every element of `items`, first to last.
pub open spec fn push_all_spec<T>(s: Seq<T>, capacity: nat, items: Seq<T>) -> Seq<T>
    decreases items.len(),
{
    if items.len() == 0 {
        s
    } else {
        push_all_spec(push_spec(s, capacity, items.first()), capacity, items.drop_first())
    }
}

/// Fixed-capacity FIFO that drops its oldest entry when a push finds it full.
pub struct RingBuffer<T> {
    items: VecDeque<T>,
    capacity: usize,
}

impl<T> View for RingBuffer<T> {
    type V = Seq<T>;

    closed spec fn view(&self) -> Seq<T> {
        self.items@
    }
}

impl<T> RingBuffer<T> {
    /// The capacity fixed at construction, in contracts.
    pub closed spec fn spec_capacity(&self) -> nat {
        self.capacity as nat
    }

    /// A buffer never holds more than its capacity.
    #[verifier::type_invariant]
    spec fn within_capacity(&self) -> bool {
        self.items@.len() <= self.capacity
    }

    /// An empty buffer that holds up to `capacity` items.
    pub fn new(capacity: usize) -> (r: Self)
        ensures
            r@ == Seq::<T>::empty(),
            r.spec_capacity() == capacity,
    {
        RingBuffer { items: VecDeque::new(), capacity }
    }

    /// The capacity fixed at construction.
    pub fn capacity(&self) -> (r: usize)
        ensures
            r == self.spec_capacity(),
    {
        self.capacity
    }

    /// The number of items held.
    pub fn len(&self) -> (r: usize)
        ensures
            r == self@.len(),
            r <= self.spec_capacity(),
    {
        proof {
            use_type_invariant(self);
        }
        self.items.len()
    }

    /// Appends `item`; a full buffer first drops its oldest entry.
    pub fn push(&mut self, item: T)
        ensures
            final(self).spec_capacity() == old(self).spec_capacity(),
            final(self)@ == push_spec(old(self)@, old(self).spec_capacity(), item),
    {
        proof {
            use_type_invariant(&*self);
        }
        if self.capacity == 0 {
            return ;
        }
        let mut items = VecDeque::new();
        std::mem::swap(&mut self.items, &mut items);
        if items.len() >= self.capacity {
            let _ = items.pop_front();
        }
        items.push_back(item);
        self.items = items;
    }

    /// The current contents, oldest first; the buffer keeps them.
    pub fn snapshot(&self) -> (r: Vec<T>) where T: Clone
        ensures
            r@.len() == self@.len(),
            forall|i: int| 0 <= i < r@.len() ==> cloned(#[trigger] self@[i], r@[i]),
    {
        let n = self.items.len();
        let mut out: Vec<T> = Vec::with_capacity(n);
        let mut i: usize = 0;
        while i < n
            invariant
                n == self.items@.len(),
                i <= n,
                out@.len() == i,
                forall|j: int| 0 <= j < i ==> cloned(#[trigger] self.items@[j], out@[j]),
            decreases n - i,
        {
            out.push(self.items[i].clone());
            i += 1;
        }
        out
    }
}

/// Cutting down to the last `capacity` items may be done early or late: what
/// an earlier cut dropped, the later cut would have dropped too.
pub proof fn lemma_keep_last_absorbs<T>(a: Seq<T>, b: Seq<T>, capacity: nat)
    ensures
        keep_last(keep_last(a, capacity) + b, capacity) == keep_last(a + b, capacity),
{
    let cut = keep_last(a, capacity);
    assert(keep_last(cut + b, capacity) =~= keep_last(a + b, capacity));
}

/// A buffer holds the last `capacity` items of everything that was ever in it
/// or pushed onto it, in the order of the pushes.
pub proof fn lemma_push_all_keeps_last<T>(s: Seq<T>, capacity: nat, items: Seq<T>)
    requires
        s.len() <= capacity,
    ensures
        push_all_spec(s, capacity, items) == keep_last(s + items, capacity),
    decreases items.len(),
{
    if items.len() == 0 {
        assert(s + items =~= s);
    } else {
        let first = items.first();
        let rest = items.drop_first();
        let next = push_spec(s, capacity, first);
        lemma_push_all_keeps_last(next, capacity, rest);
        lemma_keep_last_absorbs(s.push(first), rest, capacity);
        assert(s.push(first) + rest =~= s + items);
    }
}

/// After more pushes than its capacity, an empty buffer is full and holds
/// exactly the last `capacity` items pushed, in order.
pub proof fn lemma_overfilled_holds_newest<T>(capacity: nat, items: Seq<T>)
    requires
        items.len() > capacity,
    ensures
        push_all_spec(Seq::<T>::empty(), capacity, items).len() == capacity,
        push_all_spec(Seq::<T>::empty(), capacity, items) == items.subrange(
            items.len() - capacity,
            items.len() as int,
        ),
{
    lemma_push_all_keeps_last(Seq::<T>::empty(), capacity, items);
    assert(Seq::<T>::empty() + items =~= items);
}

} // verus!
