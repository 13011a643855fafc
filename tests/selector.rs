use may::io::selector::{
    decode_status, ns_to_ms, poll_timeout, EventData, IoError, Overlapped, Selector, Wakeup,
    ERROR_OPERATION_ABORTED, NO_ERROR,
};
use may::io::timer::{TimerData, TimerList};

const MS: u64 = 1_000_000;

#[test]
fn ns_to_ms_rounds_up() {
    assert_eq!(ns_to_ms(0), 0);
    assert_eq!(ns_to_ms(1), 1);
    assert_eq!(ns_to_ms(1_000_000), 1);
    assert_eq!(ns_to_ms(1_000_001), 2);
    assert_eq!(ns_to_ms(u64::MAX), 18_446_744_073_710);
}

#[test]
fn poll_timeout_clamps() {
    assert_eq!(poll_timeout(None), None);
    assert_eq!(poll_timeout(Some(50 * MS)), Some(50));
    assert_eq!(poll_timeout(Some(1)), Some(1));
    assert_eq!(poll_timeout(Some(u64::MAX)), Some(u32::MAX));
}

#[test]
fn status_decoding() {
    assert_eq!(decode_status(NO_ERROR), None);
    assert_eq!(decode_status(ERROR_OPERATION_ABORTED), Some(IoError::TimedOut));
    assert_eq!(decode_status(10054), Some(IoError::Os(10054)));
}

#[test]
fn timer_list_orders_and_removes() {
    let mut l = TimerList::new();
    let d = |h: usize| TimerData { handle: h, overlapped: h * 16 };
    let a = l.add(30, d(1)).unwrap();
    let b = l.add(10, d(2)).unwrap();
    let c = l.add(30, d(3)).unwrap();
    assert_ne!(a, b);
    assert_ne!(a, c);
    assert_eq!(l.earliest_deadline(), Some(10));
    assert_eq!(l.remove(b), Some(d(2)));
    assert_eq!(l.remove(b), None);
    assert_eq!(l.earliest_deadline(), Some(30));
    assert_eq!(l.expire_until(29), Vec::<TimerData>::new());
    assert_eq!(l.expire_until(30), vec![d(1), d(3)]);
    assert_eq!(l.earliest_deadline(), None);
    assert_eq!(l.remove(c), None);
}

#[test]
fn io_timeout_then_second_read() {
    let mut s = Selector::new();
    let mut io = EventData::new(7, 0x1000);
    s.add_io(&mut io);
    io.co = Some(42);
    s.add_io_timer(&mut io, Some(50 * MS), 0);
    assert!(io.timer.is_some());
    assert_eq!(s.next_timeout(0, None), Some(50 * MS));
    assert_eq!(s.next_timeout(10 * MS, Some(MS)), Some(MS));
    assert!(s.expire(49 * MS).is_empty());
    assert_eq!(s.expire(50 * MS), vec![io.timer_data()]);
    assert_eq!(s.next_timeout(60 * MS, Some(MS)), Some(MS));
    io.set_overlapped(Overlapped { status: ERROR_OPERATION_ABORTED, transferred: 0 });
    assert_eq!(s.complete(&mut io), Some(Wakeup { co: 42, result: Err(IoError::TimedOut) }));
    assert_eq!(s.complete(&mut io), None);

    let mut again = EventData::new(7, 0x2000);
    again.co = Some(42);
    s.add_io_timer(&mut again, Some(50 * MS), 60 * MS);
    again.set_overlapped(Overlapped { status: NO_ERROR, transferred: 5 });
    assert_eq!(again.get_io_size(), 5);
    assert_eq!(s.complete(&mut again), Some(Wakeup { co: 42, result: Ok(5) }));
    assert!(again.timer.is_none());
    assert!(s.expire(u64::MAX).is_empty());
}

#[test]
fn completion_with_os_error() {
    let mut s = Selector::new();
    let mut io = EventData::new(3, 0x30);
    io.co = Some(9);
    s.add_io_timer(&mut io, None, 0);
    assert!(io.timer.is_none());
    io.set_overlapped(Overlapped { status: 64, transferred: 0 });
    assert_eq!(s.complete(&mut io), Some(Wakeup { co: 9, result: Err(IoError::Os(64)) }));
}

#[test]
fn timer_deadline_saturates() {
    let mut s = Selector::new();
    let mut io = EventData::new(1, 2);
    s.add_io_timer(&mut io, Some(u64::MAX), 5);
    assert_eq!(s.next_timeout(5, None), Some(u64::MAX - 5));
    assert_eq!(s.expire(u64::MAX), vec![io.timer_data()]);
}

#[test]
fn abandoned_operation_drops_its_timer() {
    let mut s = Selector::new();
    let mut io = EventData::new(4, 0x40);
    io.co = Some(11);
    s.add_io_timer(&mut io, Some(MS), 0);
    assert_eq!(s.abandon(&mut io), Some(11));
    assert!(io.timer.is_none());
    assert_eq!(s.next_timeout(0, None), None);
    assert!(s.expire(u64::MAX).is_empty());
    assert_eq!(s.abandon(&mut io), None);
}

#[test]
fn completion_keeps_other_timers() {
    let mut s = Selector::new();
    let mut a = EventData::new(1, 0x10);
    let mut b = EventData::new(2, 0x20);
    a.co = Some(1);
    b.co = Some(2);
    s.add_io_timer(&mut a, Some(10 * MS), 0);
    s.add_io_timer(&mut b, Some(20 * MS), 0);
    assert_eq!(s.complete(&mut a), Some(Wakeup { co: 1, result: Ok(0) }));
    assert_eq!(s.next_timeout(0, None), Some(20 * MS));
    assert_eq!(s.expire(u64::MAX), vec![b.timer_data()]);
}
