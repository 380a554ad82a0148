use ccp_nimbus::spectrum::{align_samples, fft_length};

#[test]
fn window_of_default_periods() {
    // 5 s and 2.5 s of 10 ms measurements.
    assert_eq!(fft_length(500), 512);
    assert_eq!(fft_length(250), 256);
}

#[test]
fn powers_of_two_are_kept() {
    assert_eq!(fft_length(1), 1);
    assert_eq!(fft_length(2), 2);
    assert_eq!(fft_length(512), 512);
    assert_eq!(fft_length(1 << 30), 1 << 30);
}

#[test]
fn others_round_up() {
    assert_eq!(fft_length(0), 1);
    assert_eq!(fft_length(3), 4);
    assert_eq!(fft_length(5), 8);
    assert_eq!(fft_length(513), 1024);
    assert_eq!(fft_length((1 << 30) - 1), 1 << 30);
}

#[test]
fn past_two_to_the_thirty_wraps_to_sign_bit() {
    assert_eq!(fft_length((1 << 30) + 1), i32::MIN);
    assert_eq!(fft_length(i32::MAX), i32::MIN);
    assert_eq!(fft_length(i32::MIN), i32::MIN);
}

#[test]
fn rounding_twice_is_rounding_once() {
    for n in [0, 1, 3, 7, 100, 1000, 65537] {
        assert_eq!(fft_length(fft_length(n)), fft_length(n));
    }
}

#[test]
fn aligned_partners_two_round_trips_later() {
    let steps = vec![1, 0, 2, 0, 0, 0, 0, 0];
    assert_eq!(align_samples(3, 8, &steps), Some(vec![2, 1, 6]));
}

#[test]
fn alignment_gives_up_when_partner_is_past_window() {
    let steps = vec![1, 5, 0, 0, 0, 0];
    assert_eq!(align_samples(2, 6, &steps), None);
    assert_eq!(align_samples(1, 6, &steps), Some(vec![2]));
}

#[test]
fn alignment_gives_up_when_window_is_short() {
    let steps = vec![0, 0, 0];
    assert_eq!(align_samples(4, 3, &steps), None);
    assert_eq!(align_samples(3, 3, &steps), Some(vec![0, 1, 2]));
}

#[test]
fn alignment_of_no_samples() {
    let steps: Vec<usize> = vec![];
    assert_eq!(align_samples(0, 0, &steps), Some(vec![]));
    assert_eq!(align_samples(-4, 0, &steps), Some(vec![]));
}
