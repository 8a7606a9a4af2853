use opentmk::sync::{push_back_bounded, Channel, Deque, Mutex, RingBuffer};

#[test]
fn ring_buffer_keeps_fifo_order() {
    let mut rb: RingBuffer<u32> = RingBuffer::new(3);
    assert_eq!(rb.push(1), Ok(()));
    assert_eq!(rb.push(2), Ok(()));
    assert_eq!(rb.pop(), Some(1));
    assert_eq!(rb.push(3), Ok(()));
    assert_eq!(rb.push(4), Ok(()));
    assert_eq!(rb.len(), 3);
    assert_eq!(rb.pop(), Some(2));
    assert_eq!(rb.pop(), Some(3));
    assert_eq!(rb.pop(), Some(4));
    assert_eq!(rb.pop(), None);
    assert_eq!(rb.len(), 0);
}

#[test]
fn ring_buffer_refuses_push_when_full() {
    let mut rb: RingBuffer<u8> = RingBuffer::new(2);
    assert_eq!(rb.push(7), Ok(()));
    assert_eq!(rb.push(8), Ok(()));
    assert_eq!(rb.push(9), Err("Buffer is full".to_string()));
    assert_eq!(rb.len(), 2);
    assert_eq!(rb.pop(), Some(7));
    assert_eq!(rb.push(9), Ok(()));
    assert_eq!(rb.pop(), Some(8));
    assert_eq!(rb.pop(), Some(9));
}

#[test]
fn ring_buffer_of_capacity_zero_holds_nothing() {
    let mut rb: RingBuffer<u8> = RingBuffer::new(0);
    assert_eq!(rb.push(1), Err("Buffer is full".to_string()));
    assert_eq!(rb.pop(), None);
    assert_eq!(rb.len(), 0);
}

#[test]
fn ring_buffer_wraps_many_times() {
    let mut rb: RingBuffer<u64> = RingBuffer::new(4);
    for i in 0..100u64 {
        assert_eq!(rb.push(i), Ok(()));
        assert_eq!(rb.pop(), Some(i));
    }
    assert_eq!(rb.len(), 0);
}

#[test]
fn deque_operations() {
    let mut d: Deque<i32> = Deque::new();
    assert!(d.is_empty());
    assert_eq!(d.front(), None);
    assert_eq!(d.back(), None);
    d.push_back(2);
    d.push_front(1);
    d.push_back(3);
    assert_eq!(d.len(), 3);
    assert_eq!(d.front(), Some(&1));
    assert_eq!(d.back(), Some(&3));
    assert_eq!(d.pop_front(), Some(1));
    assert_eq!(d.pop_back(), Some(3));
    assert_eq!(d.pop_front(), Some(2));
    assert_eq!(d.pop_front(), None);
    assert_eq!(d.pop_back(), None);
    d.push_back(5);
    d.clear();
    assert!(d.is_empty());
    assert_eq!(d.len(), 0);
}

#[test]
fn bounded_push_refuses_at_capacity() {
    let mut d: Deque<u8> = Deque::new();
    assert_eq!(push_back_bounded(&mut d, 1, 2), Ok(()));
    assert_eq!(push_back_bounded(&mut d, 2, 2), Ok(()));
    assert_eq!(push_back_bounded(&mut d, 3, 2), Err("Buffer is full".to_string()));
    assert_eq!(d.len(), 2);
    assert_eq!(d.back(), Some(&2));
}

#[test]
fn mutex_guards_its_value() {
    let m = Mutex::new(5u32);
    let mut g = m.lock();
    assert_eq!(*g.deref(), 5);
    *g.deref_mut() = 6;
    m.unlock(g);
    let g = m.lock();
    assert_eq!(*g.deref(), 6);
    m.unlock(g);
}

#[test]
fn channel_delivers_in_order() {
    let (mut tx, mut rx) = Channel::new(2);
    assert_eq!(tx.send(1u32), Ok(()));
    assert_eq!(tx.send(2u32), Ok(()));
    assert_eq!(tx.send(3u32), Err("Buffer is full".to_string()));
    assert_eq!(rx.try_recv(), Some(1));
    assert_eq!(rx.try_recv(), Some(2));
    assert_eq!(rx.try_recv(), None);
}

#[test]
fn channel_priority_goes_first_even_when_full() {
    let (mut tx, mut rx) = Channel::new(1);
    assert_eq!(tx.send(10u32), Ok(()));
    assert_eq!(tx.send_priority(20u32), Ok(()));
    assert_eq!(rx.try_recv(), Some(20));
    assert_eq!(rx.try_recv(), Some(10));
}

#[test]
fn channel_clones_share_the_queue() {
    let (tx, rx) = Channel::new(4);
    let mut tx2 = tx.clone();
    let mut rx2 = rx.clone();
    assert_eq!(tx2.send(()), Ok(()));
    let mut tx = tx;
    assert_eq!(tx.send(()), Ok(()));
    assert_eq!(rx2.try_recv(), Some(()));
    let mut rx = rx;
    assert_eq!(rx.try_recv(), Some(()));
    assert_eq!(rx.try_recv(), None);
}
