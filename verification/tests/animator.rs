use scene2d::animator::{Animator, MAX_RATE, NANOS_PER_SECOND};

#[test]
fn animator_needs_a_rate_within_limits() {
    assert!(Animator::new(0, 10, 0).is_none());
    assert!(Animator::new(MAX_RATE + 1, 10, 0).is_none());
    assert!(Animator::new(1, 10, 0).is_some());
    assert!(Animator::new(MAX_RATE, 10, 0).is_some());
    assert_eq!(Animator::new(60, 10, 1000).unwrap().rate(), 60);
    assert_eq!(Animator::new(60, 10, 1000).unwrap().state().rotation, 1000);
    assert_eq!(NANOS_PER_SECOND, 1_000_000_000);
}

#[test]
fn time_short_of_a_tick_is_carried_over() {
    let mut animator = Animator::new(60, 10, 1000).unwrap();
    assert_eq!(animator.advance(16_666_666), 0);
    assert_eq!(animator.state().rotation, 1000);
    assert_eq!(animator.advance(16_666_666), 1);
    assert_eq!(animator.state().rotation, 1010);
    assert_eq!(animator.advance(1), 0);
    assert_eq!(animator.advance(0), 0);
    assert_eq!(animator.advance(16_666_667), 2);
    assert_eq!(animator.state().rotation, 1030);
}

#[test]
fn carry_is_what_is_left_of_a_tick_in_billionths() {
    let mut animator = Animator::new(60, 10, 1000).unwrap();
    assert_eq!(animator.carry(), 0);
    assert_eq!(animator.increment(), 10);
    assert_eq!(animator.advance(16_666_666), 0);
    assert_eq!(animator.carry(), 999_999_960);
    assert_eq!(animator.advance(1), 1);
    assert_eq!(animator.carry(), 20);
    assert_eq!(animator.advance(2_500_000_000), 150);
    assert_eq!(animator.carry(), 20);
    assert_eq!(animator.state().rotation, 1000 + 151 * 10);
}

#[test]
fn one_second_is_sixty_ticks_however_it_is_cut() {
    let mut whole = Animator::new(60, 10, 1000).unwrap();
    assert_eq!(whole.advance(1_000_000_000), 60);
    assert_eq!(whole.state().rotation, 1600);

    let mut fine = Animator::new(60, 10, 1000).unwrap();
    let mut ticks = 0;
    for _ in 0..1000 {
        ticks += fine.advance(1_000_000);
    }
    assert_eq!(ticks, 60);
    assert_eq!(fine.state().rotation, 1600);

    let mut uneven = Animator::new(60, 10, 1000).unwrap();
    let cuts = [1u64, 999_999, 333_000_000, 16_666_666, 649_333_334];
    let mut ticks = 0;
    for cut in cuts.iter() {
        ticks += uneven.advance(*cut);
    }
    assert_eq!(cuts.iter().sum::<u64>(), 1_000_000_000);
    assert_eq!(ticks, 60);
    assert_eq!(uneven.state().rotation, 1600);
}

#[test]
fn thirty_frames_a_second_give_two_ticks_a_frame() {
    let mut animator = Animator::new(60, 10, 0).unwrap();
    for _ in 0..30 {
        assert_eq!(animator.advance(33_333_334), 2);
    }
    assert_eq!(animator.state().rotation, 600);
}

#[test]
fn a_hundred_and_twenty_frames_a_second_give_a_tick_every_other_frame() {
    let mut animator = Animator::new(60, 10, 0).unwrap();
    let mut ticks = 0;
    for _ in 0..120 {
        let due = animator.advance(8_333_334);
        assert!(due <= 1);
        ticks += due;
    }
    assert_eq!(ticks, 60);
    assert_eq!(animator.state().rotation, 600);
}

#[test]
fn ticks_counted_by_the_host_turn_by_the_same_step() {
    let mut animator = Animator::new(60, 10, 1000).unwrap();
    animator.apply(0);
    assert_eq!(animator.state().rotation, 1000);
    animator.apply(3);
    assert_eq!(animator.state().rotation, 1030);
    animator.apply(1);
    assert_eq!(animator.state().rotation, 1040);
}

#[test]
fn rotation_stops_at_the_greatest_value_that_fits() {
    let mut animator = Animator::new(MAX_RATE, u32::MAX, i64::MAX - 5).unwrap();
    animator.apply(1);
    assert_eq!(animator.state().rotation, i64::MAX);
    animator.apply(u64::MAX);
    assert_eq!(animator.state().rotation, i64::MAX);
    let mut low = Animator::new(MAX_RATE, 1, i64::MIN).unwrap();
    assert_eq!(low.advance(u64::MAX), u64::MAX);
    assert_eq!(low.state().rotation, i64::MAX);
}
