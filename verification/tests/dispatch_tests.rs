use loadgen::dispatch::Dispatcher;
use loadgen::queue::Queue;

#[test]
fn queue_hands_out_in_the_order_of_arrival() {
    let mut queue = Queue::with_capacity(3);
    assert!(queue.push(7));
    assert!(queue.push(3));
    assert!(queue.push(9));
    assert_eq!(queue.pop(), Some(7));
    assert_eq!(queue.pop(), Some(3));
    assert!(queue.push(1));
    assert_eq!(queue.pop(), Some(9));
    assert_eq!(queue.pop(), Some(1));
    assert_eq!(queue.pop(), None);
    assert_eq!(queue.pop(), None);
}

#[test]
fn queue_refuses_what_it_has_no_room_for() {
    let mut queue = Queue::with_capacity(2);
    assert!(queue.push(1));
    assert!(queue.push(2));
    assert!(!queue.push(3));
    assert_eq!(queue.pop(), Some(1));
    assert!(queue.push(4));
    assert_eq!(queue.pop(), Some(2));
    assert_eq!(queue.pop(), Some(4));
    assert_eq!(queue.pop(), None);
}

#[test]
fn queue_of_no_capacity_takes_nothing() {
    let mut queue = Queue::with_capacity(0);
    assert!(!queue.push(1));
    assert_eq!(queue.pop(), None);
}

#[test]
fn dispatcher_starts_with_every_worker_free() {
    let d = Dispatcher::new(5, 2);
    assert_eq!(d.total, 5);
    assert_eq!(d.concurrency, 2);
    assert_eq!(d.taken, 0);
    assert_eq!(d.in_flight, 0);
    assert_eq!(d.retired, 0);
    assert!(!d.is_drained());
}

#[test]
fn dispatcher_hands_out_every_index_once_in_rising_order() {
    let mut d = Dispatcher::new(4, 1);
    let mut seen = Vec::new();
    while let Some(i) = d.pull() {
        seen.push(i);
        d.complete();
    }
    assert_eq!(seen, vec![0, 1, 2, 3]);
    assert!(d.is_drained());
    assert_eq!(d.taken, 4);
    assert_eq!(d.in_flight, 0);
    assert_eq!(d.retired, 1);
}

#[test]
fn dispatcher_never_has_more_in_flight_than_workers() {
    let mut d = Dispatcher::new(10, 3);
    assert_eq!(d.pull(), Some(0));
    assert_eq!(d.pull(), Some(1));
    assert_eq!(d.pull(), Some(2));
    assert_eq!(d.in_flight, 3);
    assert_eq!(d.concurrency - d.in_flight - d.retired, 0);
    d.complete();
    assert_eq!(d.in_flight, 2);
    assert_eq!(d.pull(), Some(3));
    assert_eq!(d.in_flight, 3);
    let mut max_in_flight = d.in_flight;
    let mut pulled = 4;
    while !d.is_drained() {
        if d.in_flight + d.retired < d.concurrency {
            if d.pull().is_some() {
                pulled += 1;
            }
        } else {
            d.complete();
        }
        if d.in_flight > max_in_flight {
            max_in_flight = d.in_flight;
        }
        assert!(d.in_flight <= d.concurrency);
    }
    assert_eq!(pulled, 10);
    assert_eq!(max_in_flight, 3);
    assert_eq!(d.taken, 10);
    assert_eq!(d.in_flight, 0);
    assert_eq!(d.retired, 3);
}

#[test]
fn dispatcher_of_an_empty_run_retires_its_workers_at_once() {
    let mut d = Dispatcher::new(0, 2);
    assert_eq!(d.pull(), None);
    assert!(!d.is_drained());
    assert_eq!(d.pull(), None);
    assert!(d.is_drained());
    assert_eq!(d.taken, 0);
}

#[test]
fn dispatcher_without_workers_is_drained_from_the_start() {
    let d = Dispatcher::new(3, 0);
    assert!(d.is_drained());
    assert_eq!(d.taken, 0);
}

#[test]
fn dispatcher_with_more_workers_than_requests() {
    let mut d = Dispatcher::new(2, 4);
    assert_eq!(d.pull(), Some(0));
    assert_eq!(d.pull(), Some(1));
    assert_eq!(d.pull(), None);
    assert_eq!(d.pull(), None);
    assert_eq!(d.in_flight, 2);
    assert_eq!(d.retired, 2);
    d.complete();
    assert_eq!(d.pull(), None);
    d.complete();
    assert_eq!(d.pull(), None);
    assert!(d.is_drained());
    assert_eq!(d.in_flight, 0);
}
