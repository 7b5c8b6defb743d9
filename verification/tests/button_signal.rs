use provisioner::button::ButtonMonitor;
use provisioner::signal::PressSignal;

#[test]
fn falling_edge_reports_one_press() {
    let mut m = ButtonMonitor::new(true);
    assert!(!m.sample(true));
    assert!(m.sample(false));
    // Held down: no further presses.
    assert!(!m.sample(false));
    // Release alone is no press.
    assert!(!m.sample(true));
}

#[test]
fn oscillation_counts_only_sampled_falling_edges() {
    // An input oscillating faster than the poll interval is only seen
    // through its samples: presses equal the sampled falling edges.
    let mut m = ButtonMonitor::new(true);
    let levels = [false, true, false, true, false, false, true, true, false];
    let presses = m.count_presses(&levels);
    let mut expected = 0;
    let mut prev = true;
    for &l in levels.iter() {
        if prev && !l {
            expected += 1;
        }
        prev = l;
    }
    assert_eq!(presses, expected);
    assert_eq!(presses, 4);
    assert!(presses <= levels.len());
}

#[test]
fn steady_levels_produce_no_presses() {
    let mut m = ButtonMonitor::new(false);
    assert_eq!(m.count_presses(&[false; 16]), 0);
    let mut m = ButtonMonitor::new(true);
    assert_eq!(m.count_presses(&[true; 16]), 0);
}

#[test]
fn poll_latches_signal_on_press() {
    let mut m = ButtonMonitor::new(true);
    let mut s = PressSignal::new();
    m.poll(true, &mut s);
    assert!(!s.try_take());
    m.poll(false, &mut s);
    assert!(s.try_take());
    // Taking cleared it.
    assert!(!s.try_take());
}

#[test]
fn presses_collapse_to_one_wakeup() {
    let mut m = ButtonMonitor::new(true);
    let mut s = PressSignal::new();
    // Two full press cycles before the waiter runs.
    m.poll(false, &mut s);
    m.poll(true, &mut s);
    m.poll(false, &mut s);
    // Only one wake-up is pending.
    assert!(s.try_take());
    assert!(!s.try_take());
}
