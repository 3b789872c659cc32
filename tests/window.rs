use netweather::window::SampleWindow;

#[test]
fn window_starts_empty() {
    let w = SampleWindow::new(4);
    assert_eq!(w.len(), 0);
    assert_eq!(w.capacity(), 4);
    assert_eq!(w.snapshot(), Vec::<Option<u64>>::new());
}

#[test]
fn window_size_is_capped_and_front_is_newest() {
    let n: usize = 3;
    let mut w = SampleWindow::new(n);
    for i in 0..10u64 {
        w.push_front(Some(i));
        let inserted = (i + 1) as usize;
        assert_eq!(w.len(), inserted.min(n));
        assert_eq!(w.snapshot()[0], Some(i));
    }
}

#[test]
fn window_evicts_oldest_sample() {
    let mut w = SampleWindow::new(4);
    for s in [Some(1), Some(2), None, Some(4), Some(5)] {
        w.push_front(s);
    }
    assert_eq!(w.snapshot(), vec![Some(5), Some(4), None, Some(2)]);
}

#[test]
fn three_probes_into_two_slots() {
    let mut w = SampleWindow::new(2);
    w.push_front(Some(10));
    w.push_front(Some(20));
    w.push_front(Some(30));
    assert_eq!(w.snapshot(), vec![Some(30), Some(20)]);
}

#[test]
fn zero_capacity_window_stays_empty() {
    let mut w = SampleWindow::new(0);
    w.push_front(Some(1));
    assert_eq!(w.len(), 0);
    assert!(w.snapshot().is_empty());
}

#[test]
fn capacity_one_keeps_latest() {
    let mut w = SampleWindow::new(1);
    w.push_front(None);
    w.push_front(Some(7));
    assert_eq!(w.snapshot(), vec![Some(7)]);
}
