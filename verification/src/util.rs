use std::collections::VecDeque;
use vstd::prelude::*;
use vstd::std_specs::iter::IteratorSpec;

verus! {

broadcast use vstd::std_specs::vecdeque::group_vec_dequeue_axioms;

/// A point on the overlay window, in pixels.
#[derive(Debug, Clone, Copy, PartialEq, Eq, Structural)]
pub struct Position {
    pub x: u16,
    pub y: u16,
}

impl Position {
    pub fn new(x: u16, y: u16) -> (p: Self)
        ensures
            p.x == x,
            p.y == y,
    {
        Self { x, y }
    }
}

/// An axis-aligned rectangle on the overlay window, in pixels, as the
/// renderer takes it: `top` is the edge with the larger coordinate and
/// `bottom` the one with the smaller.
#[derive(Debug, Clone, Copy, PartialEq, Eq, Structural)]
pub struct Rectangle {
    pub left: u16,
    pub top: u16,
    pub right: u16,
    pub bottom: u16,
}

/// The rectangle of the given size whose lower-left corner is `position`.
pub fn rectangle(width: u16, height: u16, position: &Position) -> (r: Rectangle)
    requires
        height + position.y <= u16::MAX,
        width + position.x <= u16::MAX,
    ensures
        r.left == position.x,
        r.top == height + position.y,
        r.right == width + position.x,
        r.bottom == position.y,
{
    Rectangle {
        left: position.x,
        top: height + position.y,
        right: width + position.x,
        bottom: position.y,
    }
}

/// A first-in first-out queue that never holds more than `capacity` items
/// once it has reached that many (for a positive capacity): pushing onto a
/// full queue drops its oldest item.
pub struct BoundedQueue<T> {
    capacity: usize,
    storage: VecDeque<T>,
}

/// What a push does to the items of a queue of the given capacity:
/// the new item goes to the back, and when the queue already held exactly
/// `capacity` items (and at least one) the item at the front leaves.
pub open spec fn pushed<T>(items: Seq<T>, capacity: nat, item: T) -> Seq<T> {
    if items.len() == capacity && items.len() > 0 {
        items.subrange(1, items.len() as int).push(item)
    } else {
        items.push(item)
    }
}

/// The items after pushing each of `xs`, first to last.
pub open spec fn pushed_all<T>(items: Seq<T>, capacity: nat, xs: Seq<T>) -> Seq<T>
    decreases xs.len(),
{
    if xs.len() == 0 {
        items
    } else {
        pushed(pushed_all(items, capacity, xs.drop_last()), capacity, xs.last())
    }
}

/// A queue with a positive capacity that holds no more than its capacity
/// still holds no more after a push.
pub proof fn lemma_push_within_capacity<T>(items: Seq<T>, capacity: nat, item: T)
    requires
        capacity > 0,
        items.len() <= capacity,
    ensures
        pushed(items, capacity, item).len() <= capacity,
        pushed(items, capacity, item).last() == item,
{
}

/// Pushing any run of items onto an empty queue with a positive capacity
/// leaves the latest `capacity` of them (all of them when there are fewer),
/// oldest first.
pub proof fn lemma_keeps_latest<T>(capacity: nat, xs: Seq<T>)
    requires
        capacity > 0,
    ensures
        pushed_all(Seq::<T>::empty(), capacity, xs)
            == xs.skip(if xs.len() > capacity { xs.len() - capacity } else { 0 }),
    decreases xs.len(),
{
    if xs.len() > 0 {
        let ys = xs.drop_last();
        lemma_keeps_latest(capacity, ys);
        let r = pushed_all(Seq::<T>::empty(), capacity, ys);
        if ys.len() >= capacity {
            assert(r.subrange(1, r.len() as int).push(xs.last())
                =~= xs.skip(xs.len() - capacity));
        } else {
            assert(r =~= ys);
            assert(ys.push(xs.last()) =~= xs);
            assert(xs.skip(0) =~= xs);
        }
    } else {
        assert(xs.skip(0) =~= xs);
    }
}

impl<T> View for BoundedQueue<T> {
    type V = Seq<T>;

    /// The items, oldest first.
    closed spec fn view(&self) -> Seq<T> {
        self.storage@
    }
}

impl<T> BoundedQueue<T> {
    /// The capacity the queue was made with.
    pub closed spec fn spec_capacity(&self) -> nat {
        self.capacity as nat
    }

    /// A queue with a positive capacity never holds more than its capacity.
    pub open spec fn well_formed(&self) -> bool {
        self.spec_capacity() > 0 ==> self@.len() <= self.spec_capacity()
    }

    pub fn new(capacity: usize) -> (q: Self)
        ensures
            q@ == Seq::<T>::empty(),
            q.spec_capacity() == capacity,
            q.well_formed(),
    {
        Self { capacity, storage: VecDeque::with_capacity(capacity) }
    }

    pub fn push(&mut self, item: T)
        ensures
            final(self)@ == pushed(old(self)@, old(self).spec_capacity(), item),
            final(self).spec_capacity() == old(self).spec_capacity(),
            old(self).well_formed() ==> final(self).well_formed(),
    {
        if self.storage.len() == self.capacity {
            let _ = self.storage.pop_front();
        }
        self.storage.push_back(item);
    }

    pub fn iter(&self) -> (it: std::collections::vec_deque::Iter<'_, T>)
        ensures
            it.remaining() == self@.as_ref(),
    {
        self.storage.iter()
    }
}

} // verus!
