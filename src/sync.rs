//! Synchronization primitives and queues shared between virtual processors.
use vstd::prelude::*;
use vstd::rwlock::{RwLock, WriteHandle};
use vstd::string::StringExecFns;
use std::sync::Arc;

verus! {

/// Relies on `Arc::clone`: the clone points at the same allocation, so it
/// holds the same value.
#[verifier::external_body]
fn share<U>(a: &Arc<U>) -> (r: Arc<U>)
    ensures
        r == *a,
{
    Arc::clone(a)
}

/// The message carried by a push that finds a bounded queue full.
pub open spec fn full_message() -> Seq<char> {
    "Buffer is full"@
}

fn full_error() -> (r: String)
    ensures
        r@ == full_message(),
{
    proof {
        reveal_strlit("Buffer is full");
    }
    String::from_str("Buffer is full")
}

/// A spin lock that owns its data.
///
/// The lock word is flipped with a compare-exchange, so every virtual processor
/// that holds a shared reference to the lock sees the same owner.
#[verifier::reject_recursive_types(T)]
pub struct Mutex<T> {
    lock: RwLock<T, spec_fn(T) -> bool>,
}

/// Exclusive access to the data of a [`Mutex`], handed back with [`Mutex::unlock`].
#[verifier::reject_recursive_types(T)]
pub struct MutexGuard<'a, T> {
    value: T,
    handle: WriteHandle<'a, T, spec_fn(T) -> bool>,
}

impl<T> Mutex<T> {
    /// The values that the lock may hold.
    pub closed spec fn inv(&self, v: T) -> bool {
        self.lock.inv(v)
    }

    /// Whether `guard` is the exclusive access to this lock.
    pub closed spec fn owns(&self, guard: MutexGuard<'_, T>) -> bool {
        guard.handle.rwlock() == self.lock
    }

    pub fn new(data: T) -> (r: Self)
        ensures
            forall|v: T| r.inv(v),
    {
        let pred = Ghost(|v: T| true);
        Mutex { lock: RwLock::new(data, pred) }
    }

    /// Spins until the lock is free, then takes it. The guard goes back through
    /// [`Mutex::unlock`]; a guard that is dropped instead leaves the lock taken.
    pub fn lock<'a>(&'a self) -> (g: MutexGuard<'a, T>)
        ensures
            self.owns(g),
            self.inv(g@),
    {
        let (value, handle) = self.lock.acquire_write();
        MutexGuard { value, handle }
    }

    /// Releases the lock, storing the guarded value back.
    pub fn unlock(&self, guard: MutexGuard<'_, T>)
        requires
            self.owns(guard),
            self.inv(guard@),
    {
        let MutexGuard { value, handle } = guard;
        handle.release_write(value);
    }
}

impl<'a, T> MutexGuard<'a, T> {
    pub closed spec fn view(&self) -> T {
        self.value
    }

    pub closed spec fn same_lock(&self, other: &Self) -> bool {
        self.handle == other.handle
    }

    pub fn deref(&self) -> (r: &T)
        ensures
            *r == self@,
    {
        &self.value
    }

    pub fn deref_mut(&mut self) -> (r: &mut T)
        ensures
            *r == old(self)@,
            final(self)@ == *final(r),
            final(self).same_lock(old(self)),
    {
        &mut self.value
    }
}

/// A fixed-capacity first-in first-out buffer stored in a circular array.
pub struct RingBuffer<T> {
    buffer: Vec<Option<T>>,
    capacity: usize,
    head: usize,
    tail: usize,
    size: usize,
}

impl<T> RingBuffer<T> {
    /// The array slot that holds the item at position `i` from the head.
    pub closed spec fn slot(&self, i: int) -> int {
        if self.head + i < self.capacity {
            self.head + i
        } else {
            self.head + i - self.capacity
        }
    }

    /// The items, oldest first.
    pub closed spec fn view(&self) -> Seq<T> {
        Seq::new(self.size as nat, |i: int| self.buffer@[self.slot(i)]->0)
    }

    pub closed spec fn capacity(&self) -> nat {
        self.capacity as nat
    }

    pub closed spec fn wf(&self) -> bool {
        &&& self.size <= self.capacity
        &&& self.buffer@.len() <= self.capacity
        &&& self.capacity > 0 ==> self.head < self.capacity && self.tail < self.capacity
        &&& self.capacity == 0 ==> self.head == 0 && self.tail == 0
        &&& self.tail == self.slot(self.size as int) || (self.capacity == 0)
        &&& self.buffer@.len() < self.capacity ==> self.tail == self.buffer@.len()
            && self.head + self.size == self.buffer@.len()
        &&& forall|i: int|
            0 <= i < self.size ==> 0 <= #[trigger] self.slot(i) < self.buffer@.len()
                && self.buffer@[self.slot(i)] is Some
    }

    pub fn new(capacity: usize) -> (r: Self)
        ensures
            r.wf(),
            r@ == Seq::<T>::empty(),
            r.capacity() == capacity,
    {
        let r = RingBuffer { buffer: Vec::with_capacity(capacity), capacity, head: 0, tail: 0, size: 0 };
        assert(r@ =~= Seq::<T>::empty());
        r
    }

    fn is_empty(&self) -> (r: bool)
        requires
            self.wf(),
        ensures
            r == (self@.len() == 0),
    {
        self.size == 0
    }

    fn is_full(&self) -> (r: bool)
        requires
            self.wf(),
        ensures
            r == (self@.len() == self.capacity()),
    {
        self.size == self.capacity
    }

    /// Appends `item` at the tail, or fails when the buffer holds `capacity` items.
    pub fn push(&mut self, item: T) -> (r: Result<(), String>)
        requires
            old(self).wf(),
        ensures
            final(self).wf(),
            final(self).capacity() == old(self).capacity(),
            old(self)@.len() == old(self).capacity() ==> final(self)@ == old(self)@ && r is Err
                && r->Err_0@ == full_message(),
            old(self)@.len() < old(self).capacity() ==> final(self)@ == old(self)@.push(item)
                && r is Ok,
    {
        if self.is_full() {
            return Err(full_error());
        }
        let ghost old_self = *self;
        if self.tail == self.buffer.len() {
            self.buffer.push(Some(item));
        } else {
            self.buffer.set(self.tail, Some(item));
        }
        self.tail = if self.tail + 1 == self.capacity {
            0
        } else {
            self.tail + 1
        };
        self.size = self.size + 1;
        assert forall|i: int| 0 <= i < self.size implies 0 <= #[trigger] self.slot(i)
            < self.buffer@.len() && self.buffer@[self.slot(i)] is Some by {
            if i < old_self.size {
                assert(old_self.slot(i) == self.slot(i));
            }
        }
        assert(self@ =~= old_self@.push(item)) by {
            assert forall|i: int| 0 <= i < old_self.size implies self.slot(i) != old_self.tail by {
                assert(old_self.slot(i) == self.slot(i));
            }
        }
        Ok(())
    }

    /// Removes and returns the item at the head, if any.
    pub fn pop(&mut self) -> (r: Option<T>)
        requires
            old(self).wf(),
        ensures
            final(self).wf(),
            final(self).capacity() == old(self).capacity(),
            old(self)@.len() == 0 ==> r is None && final(self)@ == old(self)@,
            old(self)@.len() > 0 ==> r == Some(old(self)@[0]) && final(self)@
                == old(self)@.drop_first(),
    {
        if self.is_empty() {
            return None;
        }
        let ghost old_self = *self;
        assert(old_self.slot(0) == old_self.head as int);
        let mut item: Option<T> = None;
        self.buffer.set_and_swap(self.head, &mut item);
        self.head = if self.head + 1 == self.capacity {
            0
        } else {
            self.head + 1
        };
        self.size = self.size - 1;
        assert forall|i: int| 0 <= i < self.size implies #[trigger] self.slot(i) == old_self.slot(
            i + 1,
        ) by {}
        assert forall|i: int| 0 <= i < self.size implies 0 <= #[trigger] self.slot(i)
            < self.buffer@.len() && self.buffer@[self.slot(i)] is Some by {
            assert(self.slot(i) == old_self.slot(i + 1));
            assert(old_self.slot(i + 1) != old_self.slot(0));
        }
        assert(self@ =~= old_self@.drop_first()) by {
            assert forall|i: int| 0 <= i < self.size implies self.slot(i) != old_self.head by {
                assert(self.slot(i) == old_self.slot(i + 1));
            }
        }
        match item {
            Some(v) => Some(v),
            None => None,
        }
    }

    pub fn len(&self) -> (r: usize)
        requires
            self.wf(),
        ensures
            r == self@.len(),
    {
        self.size
    }
}

/// A double-ended queue backed by a vector.
pub struct Deque<T> {
    data: Vec<T>,
}

impl<T> Deque<T> {
    /// The items, front first.
    pub closed spec fn view(&self) -> Seq<T> {
        self.data@
    }

    pub fn new() -> (r: Self)
        ensures
            r@ == Seq::<T>::empty(),
    {
        Deque { data: Vec::new() }
    }

    pub fn push_front(&mut self, value: T)
        ensures
            final(self)@ == seq![value] + old(self)@,
    {
        self.data.insert(0, value);
        assert(self@ =~= seq![value] + old(self)@);
    }

    pub fn push_back(&mut self, value: T)
        ensures
            final(self)@ == old(self)@.push(value),
    {
        self.data.push(value);
    }

    pub fn pop_front(&mut self) -> (r: Option<T>)
        ensures
            old(self)@.len() == 0 ==> r is None && final(self)@ == old(self)@,
            old(self)@.len() > 0 ==> r == Some(old(self)@[0]) && final(self)@
                == old(self)@.drop_first(),
    {
        if self.data.is_empty() {
            None
        } else {
            let v = self.data.remove(0);
            assert(self@ =~= old(self)@.drop_first());
            Some(v)
        }
    }

    pub fn pop_back(&mut self) -> (r: Option<T>)
        ensures
            old(self)@.len() == 0 ==> r is None && final(self)@ == old(self)@,
            old(self)@.len() > 0 ==> r == Some(old(self)@.last()) && final(self)@
                == old(self)@.drop_last(),
    {
        self.data.pop()
    }

    pub fn is_empty(&self) -> (r: bool)
        ensures
            r == (self@.len() == 0),
    {
        self.data.is_empty()
    }

    pub fn len(&self) -> (r: usize)
        ensures
            r == self@.len(),
    {
        self.data.len()
    }

    pub fn clear(&mut self)
        ensures
            final(self)@ == Seq::<T>::empty(),
    {
        self.data.clear();
    }

    pub fn front(&self) -> (r: Option<&T>)
        ensures
            self@.len() == 0 ==> r is None,
            self@.len() > 0 ==> r == Some(&self@[0]),
    {
        if self.data.len() == 0 {
            None
        } else {
            Some(&self.data[0])
        }
    }

    pub fn back(&self) -> (r: Option<&T>)
        ensures
            self@.len() == 0 ==> r is None,
            self@.len() > 0 ==> r == Some(&self@.last()),
    {
        let n = self.data.len();
        if n == 0 {
            None
        } else {
            Some(&self.data[n - 1])
        }
    }
}

/// A bounded queue shared by every [`Sender`] and [`Receiver`] made from it.
///
/// The contents live behind a lock that other virtual processors take too, so
/// what one end observes depends on what the others did in between.
#[verifier::reject_recursive_types(T)]
pub struct Channel<T> {
    buffer: Arc<Mutex<Deque<T>>>,
    capacity: usize,
}

impl<T> Clone for Channel<T> {
    fn clone(&self) -> (r: Self)
        ensures
            r.capacity() == self.capacity(),
    {
        proof {
            use_type_invariant(self);
        }
        Channel { buffer: share(&self.buffer), capacity: self.capacity }
    }
}

/// The sending end of a [`Channel`].
#[verifier::reject_recursive_types(T)]
pub struct Sender<T> {
    channel: Channel<T>,
}

/// The receiving end of a [`Channel`].
#[verifier::reject_recursive_types(T)]
pub struct Receiver<T> {
    channel: Channel<T>,
}

impl<T> Sender<T> {
    pub closed spec fn capacity(&self) -> nat {
        self.channel.capacity()
    }

    pub fn new(channel: Channel<T>) -> (r: Self)
        ensures
            r.capacity() == channel.capacity(),
    {
        Sender { channel }
    }

    /// Appends `item` behind what is queued, unless the queue holds `capacity` items.
    pub fn send(&mut self, item: T) -> (r: Result<(), String>)
        ensures
            final(self).capacity() == old(self).capacity(),
            r is Err ==> r->Err_0@ == full_message(),
    {
        self.channel.send(item)
    }

    /// Puts `item` in front of what is queued, whatever the queue holds.
    pub fn send_priority(&mut self, item: T) -> (r: Result<(), String>)
        ensures
            final(self).capacity() == old(self).capacity(),
            r is Ok,
    {
        self.channel.send_priority(item)
    }
}

impl<T> Clone for Sender<T> {
    fn clone(&self) -> (r: Self)
        ensures
            r.capacity() == self.capacity(),
    {
        Sender { channel: self.channel.clone() }
    }
}

impl<T> Receiver<T> {
    pub closed spec fn capacity(&self) -> nat {
        self.channel.capacity()
    }

    pub fn new(channel: Channel<T>) -> (r: Self)
        ensures
            r.capacity() == channel.capacity(),
    {
        Receiver { channel }
    }

    /// Takes the front of the queue if there is one, without waiting.
    pub fn try_recv(&mut self) -> (r: Option<T>)
        ensures
            final(self).capacity() == old(self).capacity(),
    {
        self.channel.try_recv()
    }
}

impl<T> Clone for Receiver<T> {
    fn clone(&self) -> (r: Self)
        ensures
            r.capacity() == self.capacity(),
    {
        Receiver { channel: self.channel.clone() }
    }
}

impl<T> Channel<T> {
    pub closed spec fn capacity(&self) -> nat {
        self.capacity as nat
    }

    #[verifier::type_invariant]
    closed spec fn wf(&self) -> bool {
        forall|v: Deque<T>| self.buffer.inv(v)
    }

    /// A new empty channel of the given capacity, as a connected pair of ends.
    pub fn new(capacity: usize) -> (r: (Sender<T>, Receiver<T>))
        ensures
            r.0.capacity() == capacity,
            r.1.capacity() == capacity,
    {
        let ch: Channel<T> = Channel { buffer: Arc::new(Mutex::new(Deque::new())), capacity };
        let sender = Sender::new(ch.clone());
        let receiver = Receiver::new(ch.clone());
        (sender, receiver)
    }

    fn send(&mut self, item: T) -> (r: Result<(), String>)
        ensures
            final(self).capacity() == old(self).capacity(),
            r is Err ==> r->Err_0@ == full_message(),
    {
        proof {
            use_type_invariant(&*self);
        }
        let lock: &Mutex<Deque<T>> = &self.buffer;
        let mut guard = lock.lock();
        let r = push_back_bounded(guard.deref_mut(), item, self.capacity);
        lock.unlock(guard);
        r
    }

    fn send_priority(&mut self, item: T) -> (r: Result<(), String>)
        ensures
            final(self).capacity() == old(self).capacity(),
            r is Ok,
    {
        proof {
            use_type_invariant(&*self);
        }
        let lock: &Mutex<Deque<T>> = &self.buffer;
        let mut guard = lock.lock();
        guard.deref_mut().push_front(item);
        lock.unlock(guard);
        Ok(())
    }

    fn try_recv(&mut self) -> (r: Option<T>)
        ensures
            final(self).capacity() == old(self).capacity(),
    {
        proof {
            use_type_invariant(&*self);
        }
        let lock: &Mutex<Deque<T>> = &self.buffer;
        let mut guard = lock.lock();
        let r = guard.deref_mut().pop_front();
        lock.unlock(guard);
        r
    }
}

/// Appends `item` to `queue` unless it already holds `capacity` items.
pub fn push_back_bounded<T>(queue: &mut Deque<T>, item: T, capacity: usize) -> (r: Result<(), String>)
    ensures
        old(queue)@.len() >= capacity ==> r is Err && r->Err_0@ == full_message()
            && final(queue)@ == old(queue)@,
        old(queue)@.len() < capacity ==> r is Ok && final(queue)@ == old(queue)@.push(item),
{
    if queue.len() >= capacity {
        return Err(full_error());
    }
    queue.push_back(item);
    Ok(())
}

} // verus!
