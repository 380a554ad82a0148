use ccp_nimbus::drop_choice::{choose_drop_flow, flow_for_sample};

#[test]
fn offsets_fall_on_covering_window() {
    let windows = vec![3, 0, 5];
    assert_eq!(flow_for_sample(&windows, 0, 3), 0);
    assert_eq!(flow_for_sample(&windows, 2, 3), 0);
    assert_eq!(flow_for_sample(&windows, 3, 3), 2);
    assert_eq!(flow_for_sample(&windows, 7, 3), 2);
}

#[test]
fn offset_past_windows_falls_on_last_flow() {
    let windows = vec![3, 0, 5];
    assert_eq!(flow_for_sample(&windows, 8, 3), 2);
    assert_eq!(flow_for_sample(&windows, 100, 2), 1);
}

#[test]
fn each_flow_covers_its_window() {
    let windows = vec![2, 4, 1, 3];
    let mut counts = vec![0u64; 4];
    for j in 0..10 {
        counts[flow_for_sample(&windows, j, 4)] += 1;
    }
    assert_eq!(counts, windows);
}

#[test]
fn no_drop_without_window() {
    assert_eq!(choose_drop_flow(&vec![0, 0], 0, 2), None);
    assert_eq!(choose_drop_flow(&vec![], 0, 0), None);
}

#[test]
fn drops_avoid_empty_windows() {
    let windows = vec![3, 0, 5];
    for _ in 0..200 {
        let f = choose_drop_flow(&windows, 8, 3).unwrap();
        assert!(f == 0 || f == 2);
    }
}

#[test]
fn single_flow_always_takes_the_drop() {
    for _ in 0..50 {
        assert_eq!(choose_drop_flow(&vec![1448], 1448, 1), Some(0));
    }
}

#[test]
fn drops_reach_every_flow_with_window() {
    // A draw at the total would always fall back on flow 0 here.
    let windows = vec![3, 5];
    let mut seen = [false; 2];
    for _ in 0..400 {
        seen[choose_drop_flow(&windows, 8, 1).unwrap()] = true;
    }
    assert!(seen[0] && seen[1]);
}
