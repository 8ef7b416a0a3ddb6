use batch_recv::BatchRecv;
use std::sync::mpsc;
use std::sync::mpsc::RecvError;

#[test]
fn lib_take3of4() {
    let (tx, mut rx) = mpsc::sync_channel(10);
    tx.send(1).unwrap();
    tx.send(2).unwrap();
    tx.send(3).unwrap();
    tx.send(4).unwrap();
    let first3: Vec<_> = rx.batch_recv(3).unwrap();
    assert_eq!(first3, vec![1, 2, 3]);
}

#[test]
fn lib_take2of2() {
    let (tx, mut rx) = mpsc::sync_channel(10);
    tx.send(1).unwrap();
    tx.send(2).unwrap();
    let first2: Vec<_> = rx.batch_recv(3).unwrap();
    assert_eq!(first2, vec![1, 2]);
}

#[test]
fn std_rest_stays_for_plain_recv() {
    let (tx, mut rx) = mpsc::sync_channel(10);
    for i in 1..=4u64 {
        tx.send(i).unwrap();
    }
    assert_eq!(rx.batch_recv(3).unwrap(), vec![1, 2, 3]);
    assert_eq!(rx.recv(), Ok(4));
}

#[test]
fn std_batch_of_one_takes_only_the_front() {
    let (tx, mut rx) = mpsc::channel();
    tx.send(7u64).unwrap();
    tx.send(8u64).unwrap();
    assert_eq!(rx.batch_recv(1).unwrap(), vec![7]);
    assert_eq!(rx.batch_recv(1).unwrap(), vec![8]);
}

#[test]
fn std_exact_fit() {
    let (tx, mut rx) = mpsc::channel();
    for i in 10..15u64 {
        tx.send(i).unwrap();
    }
    assert_eq!(rx.batch_recv(5).unwrap(), vec![10, 11, 12, 13, 14]);
}

#[test]
fn std_successive_batches_keep_order() {
    let (tx, mut rx) = mpsc::channel();
    for i in 0..10u64 {
        tx.send(i).unwrap();
    }
    drop(tx);
    let mut all: Vec<u64> = Vec::new();
    loop {
        match rx.batch_recv(3) {
            Ok(batch) => {
                assert!(!batch.is_empty() && batch.len() <= 3);
                all.extend(batch);
            }
            Err(e) => {
                assert_eq!(e, RecvError);
                break;
            }
        }
    }
    assert_eq!(all, (0..10u64).collect::<Vec<u64>>());
}

#[test]
fn std_disconnected_fails() {
    for n in [1usize, 2, 3, 100] {
        let (tx, mut rx) = mpsc::channel::<u64>();
        drop(tx);
        assert_eq!(rx.batch_recv(n), Err(RecvError));
    }
}

#[test]
fn std_buffered_items_outlive_the_sender() {
    let (tx, mut rx) = mpsc::channel();
    tx.send(5u64).unwrap();
    tx.send(6u64).unwrap();
    drop(tx);
    assert_eq!(rx.batch_recv(4).unwrap(), vec![5, 6]);
    assert_eq!(rx.batch_recv(4), Err(RecvError));
}
