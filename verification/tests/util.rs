use mini_universe::fixed::ONE;
use mini_universe::trig::HALF_PI;
use mini_universe::util::calculate_vec2f;
use mini_universe::util::rect2f_to_rect2i;
use mini_universe::util::reading_nanos;
use mini_universe::util::rect2i_collides;
use mini_universe::util::time_ns;
use mini_universe::util::vec2f_to_vec2i;
use mini_universe::util::Rect2f;
use mini_universe::util::Rect2i;
use mini_universe::util::Vec2f;
use mini_universe::util::Vec2i;
use std::time::Duration;
use std::time::UNIX_EPOCH;

#[test]
fn vec2f_to_vec2i_drops_the_fraction() {
    let cell = vec2f_to_vec2i(Vec2f { x: 3 * ONE + 5, y: 7 * ONE - 1 });
    assert_eq!(cell, Vec2i { x: 3, y: 6 });
}

#[test]
fn vec2f_to_vec2i_rounds_towards_zero() {
    let cell = vec2f_to_vec2i(Vec2f { x: -1, y: -ONE - 1 });
    assert_eq!(cell, Vec2i { x: 0, y: -1 });
    let cell = vec2f_to_vec2i(Vec2f { x: -ONE, y: -2 * ONE + 1 });
    assert_eq!(cell, Vec2i { x: -1, y: -1 });
}

#[test]
fn vec2f_to_vec2i_stays_within_i32() {
    let cell = vec2f_to_vec2i(Vec2f { x: i64::MAX, y: i64::MIN });
    assert_eq!(cell, Vec2i { x: i32::MAX, y: i32::MIN });
}

#[test]
fn rect2f_to_rect2i_rounds_the_extent_up() {
    let rect = Rect2f { x: 3 * ONE + 5, y: -ONE / 2, w: ONE + 1, h: 2 * ONE };
    assert_eq!(rect2f_to_rect2i(rect), Rect2i { x: 3, y: 0, w: 2, h: 2 });
    let rect = Rect2f { x: 0, y: 0, w: -5, h: i64::MAX };
    assert_eq!(rect2f_to_rect2i(rect), Rect2i { x: 0, y: 0, w: 0, h: u32::MAX });
    let rect = Rect2f { x: 0, y: 0, w: 1, h: 0 };
    assert_eq!(rect2f_to_rect2i(rect), Rect2i { x: 0, y: 0, w: 1, h: 0 });
}

#[test]
fn rect2i_collides_when_the_rectangles_overlap() {
    let a = Rect2i { x: 0, y: 0, w: 10, h: 10 };
    assert!(rect2i_collides(a, Rect2i { x: 5, y: 5, w: 10, h: 10 }));
    assert!(rect2i_collides(a, Rect2i { x: -5, y: -5, w: 6, h: 6 }));
    assert!(rect2i_collides(a, a));
}

#[test]
fn rect2i_collides_not_when_the_rectangles_only_touch() {
    let a = Rect2i { x: 0, y: 0, w: 10, h: 10 };
    assert!(!rect2i_collides(a, Rect2i { x: 10, y: 0, w: 10, h: 10 }));
    assert!(!rect2i_collides(a, Rect2i { x: 0, y: -10, w: 10, h: 10 }));
    assert!(!rect2i_collides(a, Rect2i { x: 20, y: 20, w: 1, h: 1 }));
}

#[test]
fn rect2i_collides_with_an_empty_rectangle_inside() {
    let a = Rect2i { x: 0, y: 0, w: 10, h: 10 };
    assert!(rect2i_collides(a, Rect2i { x: 5, y: 5, w: 0, h: 0 }));
    assert!(!rect2i_collides(a, Rect2i { x: 0, y: 0, w: 0, h: 0 }));
}

#[test]
fn rect2i_collides_on_one_axis_only_is_no_collision() {
    let a = Rect2i { x: 0, y: 0, w: 10, h: 10 };
    assert!(!rect2i_collides(a, Rect2i { x: 5, y: 50, w: 10, h: 10 }));
    assert!(!rect2i_collides(a, Rect2i { x: 50, y: 5, w: 10, h: 10 }));
}

#[test]
fn calculate_vec2f_along_the_axes() {
    assert_eq!(calculate_vec2f(10 * ONE, 0), Vec2f { x: 10 * ONE, y: 0 });
    assert_eq!(calculate_vec2f(10 * ONE, HALF_PI), Vec2f { x: 0, y: 10 * ONE });
}

#[test]
fn calculate_vec2f_at_a_twelfth_turn() {
    assert_eq!(calculate_vec2f(ONE, 8_784_530), Vec2f { x: 14_510_024, y: 8_388_608 });
    assert_eq!(calculate_vec2f(-3 * ONE, 8_784_529), Vec2f { x: -43_530_072, y: -25_165_821 });
}

#[test]
fn time_ns_is_after_the_year_2020() {
    assert!(time_ns() > 1_577_836_800_000_000_000);
}

#[test]
fn time_ns_does_not_run_backwards() {
    let first = time_ns();
    let second = time_ns();
    assert!(second >= first);
}

#[test]
fn reading_nanos_counts_the_nanoseconds_of_the_span() {
    assert_eq!(reading_nanos(Ok(Duration::new(5, 730_023_852))), 5_730_023_852);
    assert_eq!(reading_nanos(Ok(Duration::new(0, 0))), 0);
    assert_eq!(reading_nanos(Ok(Duration::new(0, 1))), 1);
    assert_eq!(
        reading_nanos(Ok(Duration::new(u64::MAX, 999_999_999))),
        u64::MAX as u128 * 1_000_000_000 + 999_999_999
    );
}

#[test]
fn reading_nanos_of_a_clock_before_the_epoch_is_zero() {
    let later = UNIX_EPOCH + Duration::new(10, 0);
    let reading = UNIX_EPOCH.duration_since(later);
    assert!(reading.is_err());
    assert_eq!(reading_nanos(reading), 0);
}

#[test]
fn time_ns_lies_between_two_readings_of_the_clock() {
    let before = reading_nanos(UNIX_EPOCH.elapsed());
    let now = time_ns();
    let after = reading_nanos(UNIX_EPOCH.elapsed());
    assert!(before <= now && now <= after);
}
