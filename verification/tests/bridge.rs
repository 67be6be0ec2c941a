//! The runtime bridge queue: FIFO delivery from the producing side to the
//! draining consumer, and waking behavior around an empty buffer.

use futures::task::noop_waker;
use yd_client_sys::bridge::EventQueue;

#[test]
fn events_drain_in_push_order() {
    let mut q: EventQueue<u32> = EventQueue::new();
    q.push(1);
    q.push(2);
    q.push(3);
    assert_eq!(q.len(), 3);
    assert_eq!(q.pop_front(), Some(1));
    assert_eq!(q.pop_front(), Some(2));
    assert_eq!(q.pop_front(), Some(3));
    assert_eq!(q.pop_front(), None);
}

#[test]
fn interleaved_pushes_and_pops_keep_order() {
    let mut q: EventQueue<&'static str> = EventQueue::new();
    q.push("login");
    q.push("trade");
    assert_eq!(q.pop_front(), Some("login"));
    q.push("order");
    assert_eq!(q.pop_front(), Some("trade"));
    assert_eq!(q.pop_front(), Some("order"));
    assert_eq!(q.pop_front(), None);
    assert_eq!(q.len(), 0);
}

#[test]
fn push_after_registering_a_waker_delivers_the_event() {
    let mut q: EventQueue<u8> = EventQueue::new();
    assert_eq!(q.pop_front(), None);
    q.register_waker(noop_waker());
    q.push(7);
    assert_eq!(q.pop_front(), Some(7));
    assert_eq!(q.pop_front(), None);
}

#[test]
fn queue_grows_without_bound_while_consumer_stalls() {
    let mut q: EventQueue<usize> = EventQueue::new();
    for i in 0..1000 {
        q.push(i);
    }
    assert_eq!(q.len(), 1000);
    for i in 0..1000 {
        assert_eq!(q.pop_front(), Some(i));
    }
    assert_eq!(q.pop_front(), None);
}
