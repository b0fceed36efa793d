use wallpaper_render::animation::{blend_factor, is_past_midpoint, progress, ANIMATION_TIME};
use wallpaper_render::geometry::{BackgroundMode, Fraction};

#[test]
fn animation_lasts_three_hundred_ticks() {
    assert_eq!(ANIMATION_TIME, 300);
}

#[test]
fn progress_is_elapsed_over_duration() {
    assert_eq!(progress(100, 0, 300), Fraction { num: 100, den: 300 });
    assert_eq!(progress(1150, 1000, 300), Fraction { num: 150, den: 300 });
    assert_eq!(progress(0, 0, 300), Fraction { num: 0, den: 300 });
}

#[test]
fn progress_saturates_at_one() {
    assert_eq!(progress(300, 0, 300), Fraction { num: 300, den: 300 });
    assert_eq!(progress(301, 0, 300), Fraction { num: 300, den: 300 });
    assert_eq!(progress(u32::MAX, 0, 300), Fraction { num: 300, den: 300 });
}

#[test]
fn progress_before_start_is_zero() {
    assert_eq!(progress(5, 10, 300), Fraction { num: 0, den: 300 });
}

#[test]
fn progress_never_goes_back() {
    let mut last: i128 = 0;
    for time in 90u32..500 {
        let p = progress(time, 100, 300);
        assert_eq!(p.den, 300);
        assert!(p.num >= last);
        assert!(p.num <= p.den);
        last = p.num;
    }
    assert_eq!(last, 300);
}

#[test]
fn midpoint_is_passed_after_half_the_duration() {
    assert!(!is_past_midpoint(&progress(100, 0, 300)));
    assert!(!is_past_midpoint(&progress(150, 0, 300)));
    assert!(is_past_midpoint(&progress(151, 0, 300)));
    assert!(is_past_midpoint(&progress(300, 0, 300)));
}

#[test]
fn blend_factor_is_progress_outside_fit() {
    for mode in [BackgroundMode::Stretch, BackgroundMode::Fill, BackgroundMode::Tile] {
        for time in [0u32, 100, 150, 151, 299, 300, 1000] {
            let p = progress(time, 0, 300);
            assert_eq!(blend_factor(p, mode), p);
        }
    }
}

#[test]
fn blend_factor_in_fit_restarts_after_midpoint() {
    let fit = BackgroundMode::Fit;
    assert_eq!(blend_factor(progress(0, 0, 300), fit), Fraction { num: 0, den: 300 });
    assert_eq!(blend_factor(progress(100, 0, 300), fit), Fraction { num: 200, den: 300 });
    assert_eq!(blend_factor(progress(149, 0, 300), fit), Fraction { num: 298, den: 300 });
    assert_eq!(blend_factor(progress(150, 0, 300), fit), Fraction { num: 300, den: 300 });
    assert_eq!(blend_factor(progress(151, 0, 300), fit), Fraction { num: 2, den: 300 });
    assert_eq!(blend_factor(progress(299, 0, 300), fit), Fraction { num: 298, den: 300 });
    assert_eq!(blend_factor(progress(300, 0, 300), fit), Fraction { num: 300, den: 300 });
    assert_eq!(blend_factor(progress(400, 0, 300), fit), Fraction { num: 300, den: 300 });
}

#[test]
fn blend_factor_in_fit_never_falls_within_a_half() {
    let fit = BackgroundMode::Fit;
    let mut last: i128 = 0;
    for time in 0u32..=150 {
        let b = blend_factor(progress(time, 0, 300), fit);
        assert_eq!(b.den, 300);
        assert!(b.num >= last);
        last = b.num;
    }
    assert_eq!(last, 300);
    last = 0;
    for time in 151u32..=400 {
        let b = blend_factor(progress(time, 0, 300), fit);
        assert!(b.num >= last);
        last = b.num;
    }
    assert_eq!(last, 300);
}

#[test]
fn blend_factor_at_midpoint_of_odd_duration() {
    let fit = BackgroundMode::Fit;
    assert_eq!(blend_factor(progress(2, 0, 5), fit), Fraction { num: 4, den: 5 });
    assert_eq!(blend_factor(progress(3, 0, 5), fit), Fraction { num: 1, den: 5 });
    assert_eq!(blend_factor(progress(5, 0, 5), fit), Fraction { num: 5, den: 5 });
}
