//! Plain geometry on the grid, and the wall clock.
//!
//! `Vec2i`, `Size2i` and `Rect2i` count whole cells; `Vec2f`, `Vec3f` and
//! `Rect2f` hold fixed-point numbers.

use vstd::prelude::*;
use crate::fixed::Fixed;
use crate::fixed::ONE;
use crate::fixed::spec_clamp;
use crate::fixed::spec_mul;
use crate::fixed::floor_div;
use crate::fixed::mul_wide;
use crate::fixed::saturate;
use crate::fixed::lemma_mul_signed_fraction;
use crate::trig::spec_cos;
use crate::trig::spec_sin;
use crate::trig::cos;
use crate::trig::sin;

verus! {

/// A cell of the grid, or a place outside it.
#[derive(Clone, Copy, PartialEq, Eq, Structural, Debug)]
pub struct Vec2i {
    pub x: i32,
    pub y: i32,
}

/// A number of columns and of rows.
#[derive(Clone, Copy, PartialEq, Eq, Structural, Debug)]
pub struct Size2i {
    pub w: u32,
    pub h: u32,
}

/// A point or a displacement in the plane.
#[derive(Clone, Copy, PartialEq, Eq, Structural, Debug)]
pub struct Vec2f {
    pub x: Fixed,
    pub y: Fixed,
}

/// Three fixed-point numbers, such as a colour.
#[derive(Clone, Copy, PartialEq, Eq, Structural, Debug)]
pub struct Vec3f {
    pub x: Fixed,
    pub y: Fixed,
    pub z: Fixed,
}

/// A rectangle by its lower corner and its extent.
#[derive(Clone, Copy, PartialEq, Eq, Structural, Debug)]
pub struct Rect2f {
    pub x: Fixed,
    pub y: Fixed,
    pub w: Fixed,
    pub h: Fixed,
}

/// A rectangle of whole cells.
#[derive(Clone, Copy, PartialEq, Eq, Structural, Debug)]
pub struct Rect2i {
    pub x: i32,
    pub y: i32,
    pub w: u32,
    pub h: u32,
}

/// The whole part of a raw value, rounded towards zero.
pub open spec fn spec_whole(raw: int) -> int {
    if raw >= 0 {
        raw / (ONE as int)
    } else {
        -((-raw) / (ONE as int))
    }
}

/// The least whole number that is not below a raw value.
pub open spec fn spec_ceil(raw: int) -> int {
    -((-raw) / (ONE as int))
}

/// The cell coordinate of a raw value: its whole part, held within `i32`.
pub open spec fn spec_cell(raw: int) -> int {
    spec_clamp(spec_whole(raw), i32::MIN as int, i32::MAX as int)
}

/// The cell under a point.
pub open spec fn spec_vec2f_to_vec2i(pos: Vec2f) -> Vec2i {
    Vec2i { x: spec_cell(pos.x as int) as i32, y: spec_cell(pos.y as int) as i32 }
}

/// The displacement of length `speed` in the direction `angle`.
pub open spec fn spec_calculate_vec2f(speed: int, angle: int) -> (int, int) {
    (spec_mul(spec_cos(angle), speed), spec_mul(spec_sin(angle), speed))
}

fn whole_cell(raw: Fixed) -> (r: i32)
    ensures
        r == spec_cell(raw as int),
{
    let whole: i64 = raw / ONE;
    if whole < i32::MIN as i64 {
        i32::MIN
    } else if whole > i32::MAX as i64 {
        i32::MAX
    } else {
        whole as i32
    }
}

fn ceil_extent(raw: Fixed) -> (r: u32)
    ensures
        r == spec_clamp(spec_ceil(raw as int), 0, u32::MAX as int),
{
    let up: i128 = -floor_div(-(raw as i128), ONE as i128);
    if up < 0 {
        0
    } else if up > u32::MAX as i128 {
        u32::MAX
    } else {
        up as u32
    }
}

/// Converts a point to the cell under it, dropping the fractional parts.
pub fn vec2f_to_vec2i(pos: Vec2f) -> (cell: Vec2i)
    ensures
        cell == spec_vec2f_to_vec2i(pos),
{
    Vec2i { x: whole_cell(pos.x), y: whole_cell(pos.y) }
}

/// Converts a rectangle to whole cells: the corner drops its fractional
/// parts, the extent is rounded up, and a negative extent counts as none.
pub fn rect2f_to_rect2i(rect: Rect2f) -> (cells: Rect2i)
    ensures
        cells.x == spec_cell(rect.x as int),
        cells.y == spec_cell(rect.y as int),
        cells.w == spec_clamp(spec_ceil(rect.w as int), 0, u32::MAX as int),
        cells.h == spec_clamp(spec_ceil(rect.h as int), 0, u32::MAX as int),
{
    Rect2i {
        x: whole_cell(rect.x),
        y: whole_cell(rect.y),
        w: ceil_extent(rect.w),
        h: ceil_extent(rect.h),
    }
}

/// Whether two rectangles overlap in more than an edge.
pub open spec fn spec_rect2i_collides(rect_1: Rect2i, rect_2: Rect2i) -> bool {
    &&& rect_1.x + rect_1.w > rect_2.x
    &&& rect_1.x < rect_2.x + rect_2.w
    &&& rect_1.y + rect_1.h > rect_2.y
    &&& rect_1.y < rect_2.y + rect_2.h
}

/// A rectangle whose extent and whose far corner can be told in `i32`.
pub open spec fn spec_rect2i_fits(rect: Rect2i) -> bool {
    &&& rect.w <= i32::MAX
    &&& rect.h <= i32::MAX
    &&& rect.x + rect.w <= i32::MAX
    &&& rect.y + rect.h <= i32::MAX
}

/// Checks whether two rectangles collide, by `Rect::collides_with_rect` of
/// `vek`: it turns each rectangle into its two corners, adding the extent to
/// the position, and asks that on each axis either one begins before the
/// other ends.
#[verifier::external_body]
pub fn rect2i_collides(rect_1: Rect2i, rect_2: Rect2i) -> (hit: bool)
    requires
        spec_rect2i_fits(rect_1),
        spec_rect2i_fits(rect_2),
    ensures
        hit == spec_rect2i_collides(rect_1, rect_2),
{
    vek::Rect::new(rect_1.x, rect_1.y, rect_1.w as i32, rect_1.h as i32).collides_with_rect(
        vek::Rect::new(rect_2.x, rect_2.y, rect_2.w as i32, rect_2.h as i32),
    )
}

/// Calculates the displacement of length `speed` in the direction `angle`.
pub fn calculate_vec2f(speed: Fixed, angle: Fixed) -> (v: Vec2f)
    requires
        speed > i64::MIN,
    ensures
        (v.x as int, v.y as int) == spec_calculate_vec2f(speed as int, angle as int),
        speed >= 0 ==> -speed <= v.x <= speed && -speed <= v.y <= speed,
        speed <= 0 ==> speed <= v.x <= -speed && speed <= v.y <= -speed,
{
    let c: i64 = cos(angle);
    let s: i64 = sin(angle);
    proof {
        lemma_mul_signed_fraction(speed as int, c as int);
        lemma_mul_signed_fraction(speed as int, s as int);
        assert(c * speed == speed * c && s * speed == speed * s) by (nonlinear_arith);
    }
    Vec2f { x: mul_wide(c, speed) as i64, y: mul_wide(s, speed) as i64 }
}

/// The error of a clock that reads a time before the Unix epoch.
#[verifier::external_type_specification]
#[verifier::external_body]
pub struct ExSystemTimeError(std::time::SystemTimeError);

/// `SystemTime::elapsed` of std on `UNIX_EPOCH`: the time that the system
/// clock says has passed since the epoch, or an error where the clock reads
/// a time before it.
#[verifier::external_body]
fn since_epoch() -> Result<core::time::Duration, std::time::SystemTimeError> {
    std::time::UNIX_EPOCH.elapsed()
}

/// The whole number of nanoseconds that a span of time holds. A span is
/// nothing but its seconds and its nanoseconds, so the number depends on
/// the span alone. It is what `Duration::as_nanos` of std returns.
/// The verifier knows nothing else of it.
pub uninterp spec fn duration_nanos(span: core::time::Duration) -> u128;

/// Gets the current Unix time in nanoseconds. A clock that reads a time
/// before the epoch counts as the epoch itself.
pub fn time_ns() -> (nanos: u128)
    ensures
        exists|reading: Result<core::time::Duration, std::time::SystemTimeError>|
            nanos == #[trigger] spec_reading_nanos(reading),
{
    reading_nanos(since_epoch())
}

/// `Duration::as_nanos` of std: the span in nanoseconds, which depends on
/// the span alone.
#[verifier::external_body]
fn whole_nanos(span: &core::time::Duration) -> (nanos: u128)
    ensures
        nanos == duration_nanos(*span),
{
    span.as_nanos()
}

/// The Unix time in nanoseconds that a reading of the clock stands for: the
/// nanoseconds of the span since the epoch, and 0 where the clock read a
/// time before the epoch.
pub open spec fn spec_reading_nanos(
    reading: Result<core::time::Duration, std::time::SystemTimeError>,
) -> u128 {
    match reading {
        Ok(span) => duration_nanos(span),
        Err(_) => 0,
    }
}

/// Turns a reading of the clock, as the time since the Unix epoch or the
/// error of a clock that reads a time before it, into nanoseconds.
pub fn reading_nanos(reading: Result<core::time::Duration, std::time::SystemTimeError>) -> (nanos:
    u128)
    ensures
        nanos == spec_reading_nanos(reading),
{
    match reading {
        Ok(span) => whole_nanos(&span),
        Err(_) => 0,
    }
}

} // verus!
