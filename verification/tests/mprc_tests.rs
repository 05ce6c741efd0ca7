use jiaoziflow_runtime::mprc::Mprs;
use tokio::sync::mpsc;

#[test]
fn test_mprs_insert_remove() {
    let mut mprs = Mprs::<i32, mpsc::Sender<u32>>::new();
    for i in 0..5 {
        let (tx, _) = mpsc::channel(10);
        mprs.insert(i, tx);
    }

    let keys: Vec<i32> = mprs.iter().map(|a| a.0).collect();
    assert_eq!(vec![0, 1, 2, 3, 4], keys);

    let _ = mprs.remove(&3).unwrap();
    let keys: Vec<i32> = mprs.iter().map(|a| a.0).collect();
    assert_eq!(vec![0, 1, 2, 4], keys);
}

#[test]
fn test_mprs_send_value() {
    let mut mprs = Mprs::<String, mpsc::Sender<u32>>::new();

    let (tx_a, mut rx_a) = mpsc::channel(10);
    mprs.insert("A".to_string(), tx_a);
    let (tx_b, mut rx_b) = mpsc::channel(10);
    mprs.insert("B".to_string(), tx_b);

    for _ in 0..10 {
        if let Some(sender) = mprs.get_random() {
            sender.try_send(12).unwrap();
        }
    }

    let mut counter = 0;
    while let Ok(v) = rx_a.try_recv() {
        assert_eq!(v, 12);
        println!("A receive");
        counter += 1;
    }
    while let Ok(v) = rx_b.try_recv() {
        assert_eq!(v, 12);
        println!("B receive");
        counter += 1;
    }
    assert_eq!(10, counter);
}

#[test]
fn mprs_insert_replaces_and_returns_old_value() {
    let mut mprs = Mprs::<u64, &str>::new();
    assert_eq!(mprs.insert(7, "first"), None);
    assert_eq!(mprs.insert(8, "second"), None);
    assert_eq!(mprs.insert(7, "third"), Some("first"));
    // the old binding of 7 is swap-removed, the new one appended
    let entries: Vec<(u64, &str)> = mprs.iter().cloned().collect();
    assert_eq!(entries, vec![(8, "second"), (7, "third")]);
}

#[test]
fn mprs_remove_missing_key_changes_nothing() {
    let mut mprs = Mprs::<i32, u32>::new();
    mprs.insert(1, 10);
    mprs.insert(2, 20);
    assert_eq!(mprs.remove(&3), None);
    let keys: Vec<i32> = mprs.iter().map(|a| a.0).collect();
    assert_eq!(keys, vec![1, 2]);
    assert_eq!(mprs.remove(&1), Some(10));
    assert_eq!(mprs.remove(&1), None);
    let keys: Vec<i32> = mprs.iter().map(|a| a.0).collect();
    assert_eq!(keys, vec![2]);
}

#[test]
fn mprs_get_random_on_empty_and_single() {
    let mut mprs = Mprs::<String, u32>::new();
    assert_eq!(mprs.get_random(), None);
    mprs.insert("only".to_string(), 42);
    for _ in 0..20 {
        assert_eq!(mprs.get_random(), Some(&42));
    }
}

#[test]
fn mprs_get_random_picks_a_member() {
    let mut mprs = Mprs::<i32, u32>::new();
    for i in 0..4 {
        mprs.insert(i, (i as u32) * 100);
    }
    for _ in 0..50 {
        let v = *mprs.get_random().unwrap();
        assert!(v == 0 || v == 100 || v == 200 || v == 300);
    }
}

#[test]
fn mprs_pick_returns_the_entry_at_the_slot() {
    let mut mprs = Mprs::<i32, u32>::new();
    for i in 0..4 {
        mprs.insert(i, (i as u32) * 100);
    }
    assert_eq!(mprs.pick(0), Some(&0));
    assert_eq!(mprs.pick(3), Some(&300));
    mprs.remove(&1);
    assert_eq!(mprs.pick(1), Some(&300));
}

#[test]
fn mprs_insert_of_a_bound_key_moves_it_last() {
    let mut mprs = Mprs::<i32, u32>::new();
    for i in 0..4 {
        mprs.insert(i, i as u32);
    }
    assert_eq!(mprs.insert(1, 10), Some(1));
    let entries: Vec<(i32, u32)> = mprs.iter().map(|a| *a).collect();
    assert_eq!(entries, vec![(0, 0), (3, 3), (2, 2), (1, 10)]);
    assert_eq!(mprs.insert(7, 70), None);
    assert_eq!(mprs.iter().count(), 5);
}
