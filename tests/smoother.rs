use ta::error::TaError;
use ta::smoother::{Phase, SmootherSchedule, Update};

#[test]
fn smoother_rejects_zero_period() {
    assert_eq!(SmootherSchedule::new(0).unwrap_err(), TaError::InvalidParameter);
    assert_eq!(SmootherSchedule::new(1).unwrap().period(), 1);
}

#[test]
fn smoother_seeds_once_then_blends() {
    let mut s = SmootherSchedule::new(3).unwrap();
    assert_eq!(s.phase(), Phase::WarmingUp);
    assert_eq!(s.next(), Update::Seed);
    assert_eq!(s.phase(), Phase::Steady);
    for _ in 0..5 {
        assert_eq!(s.next(), Update::Blend);
    }
    assert_eq!(s.period(), 3);
}

#[test]
fn smoother_reset_rearms_seed() {
    let mut s = SmootherSchedule::new(4).unwrap();
    s.next();
    s.next();
    s.reset();
    assert_eq!(s.phase(), Phase::WarmingUp);
    assert_eq!(s.next(), Update::Seed);
    assert_eq!(s.period(), 4);
    s.reset();
    s.reset();
    assert_eq!(s.phase(), Phase::WarmingUp);
}

#[test]
fn smoother_alpha_is_two_over_period_plus_one() {
    assert_eq!(SmootherSchedule::new(3).unwrap().alpha(), (2, 4));
    assert_eq!(SmootherSchedule::new(1).unwrap().alpha(), (2, 2));
    assert_eq!(
        SmootherSchedule::new(usize::MAX).unwrap().alpha(),
        (2, usize::MAX as u128 + 1)
    );
}

#[test]
fn smoother_first_value_comes_back_exactly() {
    let mut s = SmootherSchedule::new(7).unwrap();
    let x = 123.456_f64;
    let out = match s.next() {
        Update::Seed => x,
        Update::Blend => 0.0,
    };
    assert_eq!(out, x);
}
