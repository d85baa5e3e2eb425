use hsrn::contact::contact_windows;
use hsrn::NodeId;

#[test]
fn test_node_id_display() {
    let id = NodeId("HSRN-1");
    assert_eq!(id.to_string(), "HSRN-1");
}

#[test]
fn node_id_keeps_its_name() {
    let id = NodeId("GROUND");
    assert_eq!(id.0, "GROUND");
    assert_eq!(id.clone(), NodeId("GROUND"));
}

#[test]
fn always_clear_gives_one_window_over_the_horizon() {
    // one hour sampled every 60 s: 61 samples, all clear
    let visible = vec![true; 61];
    assert_eq!(contact_windows(&visible), vec![(0, 61)]);
}

#[test]
fn always_blocked_gives_no_window() {
    let visible = vec![false; 61];
    assert!(contact_windows(&visible).is_empty());
}

#[test]
fn no_samples_gives_no_window() {
    assert!(contact_windows(&Vec::new()).is_empty());
}

#[test]
fn window_closes_at_falling_edge_sample() {
    let visible = vec![false, true, true, false, false, true, false];
    assert_eq!(contact_windows(&visible), vec![(1, 3), (5, 6)]);
}

#[test]
fn window_open_at_the_end_closes_at_the_horizon() {
    let visible = vec![true, false, true, true];
    assert_eq!(contact_windows(&visible), vec![(0, 1), (2, 4)]);
}

#[test]
fn single_clear_last_sample_opens_and_closes_at_the_horizon() {
    let visible = vec![false, false, true];
    assert_eq!(contact_windows(&visible), vec![(2, 3)]);
}

#[test]
fn alternating_samples_give_one_window_each() {
    let visible = vec![true, false, true, false, true];
    assert_eq!(contact_windows(&visible), vec![(0, 1), (2, 3), (4, 5)]);
}
