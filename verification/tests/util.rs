use reimu::util::{frame_time_left, ns_per_frame};

#[test]
fn sixty_frames_per_second() {
    assert_eq!(ns_per_frame(60), 16_666_667);
}

#[test]
fn exact_and_rounded_frame_lengths() {
    assert_eq!(ns_per_frame(1), 1_000_000_000);
    assert_eq!(ns_per_frame(2), 500_000_000);
    assert_eq!(ns_per_frame(3), 333_333_333);
    assert_eq!(ns_per_frame(7), 142_857_143);
    assert_eq!(ns_per_frame(1_000_000_000), 1);
}

#[test]
fn halves_round_up() {
    assert_eq!(ns_per_frame(2_000_000_000), 1);
    assert_eq!(ns_per_frame(400_000_000), 3);
    assert_eq!(ns_per_frame(2_000_000_001), 0);
}

#[test]
fn zero_rate_never_ends() {
    assert_eq!(ns_per_frame(0), u64::MAX);
}

#[test]
fn huge_rates_give_zero() {
    assert_eq!(ns_per_frame(usize::MAX), 0);
    assert_eq!(ns_per_frame(3_000_000_000), 0);
}

#[test]
fn agrees_with_rounded_floating_point_division() {
    let mut fps: usize = 1;
    while fps < 4_000_000_000 {
        let expected = (1_000_000_000f64 / fps as f64).round() as u64;
        assert_eq!(ns_per_frame(fps), expected, "fps {}", fps);
        fps = fps + fps / 7 + 1;
    }
    for fps in 1..5000usize {
        let expected = (1_000_000_000f64 / fps as f64).round() as u64;
        assert_eq!(ns_per_frame(fps), expected, "fps {}", fps);
    }
}

#[test]
fn time_left_in_a_frame() {
    assert_eq!(frame_time_left(60, 0), Some(16_666_667));
    assert_eq!(frame_time_left(60, 6_666_667), Some(10_000_000));
    assert_eq!(frame_time_left(60, 16_666_666), Some(1));
    assert_eq!(frame_time_left(60, 16_666_667), None);
    assert_eq!(frame_time_left(60, u64::MAX), None);
    assert_eq!(frame_time_left(0, 5), Some(u64::MAX - 5));
}
