use may::sync::spsc::{channel, SendError, TryRecvError};

#[test]
fn smoke() {
    let (tx, rx) = channel::<i32>();
    tx.send(1).unwrap();
    assert_eq!(rx.recv().unwrap(), 1);
}

#[test]
fn drop_full() {
    let (tx, _rx) = channel::<Box<isize>>();
    tx.send(Box::new(1)).unwrap();
}

#[test]
fn drop_full_shared() {
    let (tx, _rx) = channel::<Box<isize>>();
    tx.send(Box::new(1)).unwrap();
}

#[test]
fn smoke_port_gone() {
    let (tx, rx) = channel::<i32>();
    drop(rx);
    assert!(tx.send(1).is_err());
}

#[test]
fn port_gone_returns_item() {
    let (tx, rx) = channel::<i32>();
    drop(rx);
    assert_eq!(tx.send(1), Err(SendError(1)));
    assert_eq!(tx.send(2), Err(SendError(2)));
}

#[test]
fn smoke_chan_gone() {
    let (tx, rx) = channel::<i32>();
    drop(tx);
    assert!(rx.recv().is_err());
}

#[test]
fn chan_gone_after_items() {
    let (tx, rx) = channel::<i32>();
    tx.send(1).unwrap();
    tx.send(2).unwrap();
    drop(tx);
    assert_eq!(rx.recv().unwrap(), 1);
    assert_eq!(rx.try_recv(), Ok(2));
    assert!(rx.recv().is_err());
    assert_eq!(rx.try_recv(), Err(TryRecvError::Disconnected));
}

#[test]
fn oneshot_single_thread_close_port_first() {
    let (_tx, rx) = channel::<i32>();
    drop(rx);
}

#[test]
fn oneshot_single_thread_close_chan_first() {
    let (tx, _rx) = channel::<i32>();
    drop(tx);
}

#[test]
fn oneshot_single_thread_send_port_close() {
    let (tx, rx) = channel::<Box<i32>>();
    drop(rx);
    assert!(tx.send(Box::new(0)).is_err());
}

#[test]
fn oneshot_single_thread_send_then_recv() {
    let (tx, rx) = channel::<Box<i32>>();
    tx.send(Box::new(10)).unwrap();
    assert!(*rx.recv().unwrap() == 10);
}

#[test]
fn oneshot_single_thread_try_send_open() {
    let (tx, rx) = channel::<i32>();
    assert!(tx.send(10).is_ok());
    assert!(rx.recv().unwrap() == 10);
}

#[test]
fn oneshot_single_thread_try_send_closed() {
    let (tx, rx) = channel::<i32>();
    drop(rx);
    assert!(tx.send(10).is_err());
}

#[test]
fn oneshot_single_thread_try_recv_open() {
    let (tx, rx) = channel::<i32>();
    tx.send(10).unwrap();
    assert!(rx.recv() == Ok(10));
}

#[test]
fn oneshot_single_thread_try_recv_closed() {
    let (tx, rx) = channel::<i32>();
    drop(tx);
    assert!(rx.recv().is_err());
}

#[test]
fn oneshot_single_thread_peek_data() {
    let (tx, rx) = channel::<i32>();
    assert_eq!(rx.try_recv(), Err(TryRecvError::Empty));
    tx.send(10).unwrap();
    assert_eq!(rx.try_recv(), Ok(10));
}

#[test]
fn oneshot_single_thread_peek_close() {
    let (tx, rx) = channel::<i32>();
    drop(tx);
    assert_eq!(rx.try_recv(), Err(TryRecvError::Disconnected));
    assert_eq!(rx.try_recv(), Err(TryRecvError::Disconnected));
}

#[test]
fn oneshot_single_thread_peek_open() {
    let (_tx, rx) = channel::<i32>();
    assert_eq!(rx.try_recv(), Err(TryRecvError::Empty));
}

#[test]
fn recv_a_lot() {
    let (tx, rx) = channel();
    for _ in 0..10000 {
        tx.send(()).unwrap();
    }
    for _ in 0..10000 {
        rx.recv().unwrap();
    }
}

#[test]
fn stress_fifo_order() {
    let (tx, rx) = channel::<i32>();
    for i in 0..10000 {
        tx.send(i).unwrap();
    }
    for i in 0..10000 {
        assert_eq!(rx.recv().unwrap(), i);
    }
    assert_eq!(rx.try_recv(), Err(TryRecvError::Empty));
}

#[test]
fn send_forty_in_order() {
    let (tx, rx) = channel::<i32>();
    for i in 1..=40 {
        tx.send(i).unwrap();
    }
    let mut got = Vec::new();
    let mut it = rx.try_iter();
    while let Some(v) = it.next() {
        got.push(v);
    }
    assert_eq!(got, (1..=40).collect::<Vec<i32>>());
}

#[test]
fn test_recv_into_iter_owned() {
    let mut iter = {
        let (tx, rx) = channel::<i32>();
        tx.send(1).unwrap();
        tx.send(2).unwrap();

        rx.into_iter()
    };
    assert_eq!(iter.next().unwrap(), 1);
    assert_eq!(iter.next().unwrap(), 2);
    assert!(iter.next().is_none());
}

#[test]
fn test_recv_into_iter_borrowed() {
    let (tx, rx) = channel::<i32>();
    tx.send(1).unwrap();
    tx.send(2).unwrap();
    drop(tx);
    let mut iter = rx.iter();
    assert_eq!(iter.next().unwrap(), 1);
    assert_eq!(iter.next().unwrap(), 2);
    assert!(iter.next().is_none());
}

#[test]
fn test_recv_try_iter_empty() {
    let (_tx, rx) = channel::<i32>();
    assert!(rx.try_iter().next().is_none());
}

#[test]
fn smoke_coroutine() {
    let (tx, rx) = channel::<i32>();
    tx.send(1).unwrap();
    assert_eq!(rx.recv().unwrap(), 1);
}

#[test]
fn port_gone_concurrent1() {
    let (tx, rx) = channel::<i32>();
    tx.send(1).unwrap();
    rx.recv().unwrap();
    drop(rx);
    let mut sent = 0;
    while tx.send(1).is_ok() {
        sent += 1;
    }
    assert_eq!(sent, 0);
}

#[test]
fn chan_gone_concurrent() {
    let (tx, rx) = channel::<i32>();
    tx.send(1).unwrap();
    tx.send(1).unwrap();
    drop(tx);
    let mut got = 0;
    while rx.recv().is_ok() {
        got += 1;
    }
    assert_eq!(got, 2);
}

#[test]
fn oneshot_single_thread_recv_chan_close() {
    let (tx, rx) = channel::<i32>();
    drop(tx);
    let res = rx.recv();
    assert!(res.is_err());
}

#[test]
fn send_from_outside_runtime() {
    let (tx1, rx1) = channel::<()>();
    let (tx2, rx2) = channel::<i32>();
    tx1.send(()).unwrap();
    rx1.recv().unwrap();
    for _ in 0..40 {
        tx2.send(1).unwrap();
    }
    for _ in 0..40 {
        assert_eq!(rx2.recv().unwrap(), 1);
    }
}
