use vstd::prelude::*;

verus! {

/// A point or a vector. Coordinates are fixed-point: `constants::UNIT`
/// steps make one drawing unit, and a velocity counts steps per millisecond
/// (that is, drawing units per second).
#[derive(Clone, Copy, Debug, PartialEq, Eq, Structural)]
pub struct Vec2 {
    pub x: i64,
    pub y: i64,
}

impl Vec2 {
    pub fn new(x: i64, y: i64) -> (r: Vec2)
        ensures
            r.x == x,
            r.y == y,
    {
        Vec2 { x, y }
    }
}

/// `v` brought into `[low, high]`. When `low > high`, values below `low`
/// give `low` and all others `high`.
pub open spec fn clamp_spec(v: int, low: int, high: int) -> int {
    if v < low {
        low
    } else if v > high {
        high
    } else {
        v
    }
}

/// `v` brought into the range of `i64`.
pub open spec fn saturate_spec(v: int) -> int {
    clamp_spec(v, i64::MIN as int, i64::MAX as int)
}

pub open spec fn magnitude(v: int) -> int {
    if v < 0 {
        -v
    } else {
        v
    }
}

/// A speed times a frame time stays far inside `i128`.
pub(crate) proof fn lemma_step_bounds(v: int, dt: int)
    requires
        i64::MIN <= v <= i64::MAX,
        0 <= dt <= u32::MAX,
    ensures
        -0x1_0000_0000_0000_0000_0000_0000 <= v * dt <= 0x1_0000_0000_0000_0000_0000_0000,
{
    assert(-0x8000_0000_0000_0000 * 0x1_0000_0000 <= v * dt <= 0x8000_0000_0000_0000
        * 0x1_0000_0000) by (nonlinear_arith)
        requires
            -0x8000_0000_0000_0000 <= v <= 0x8000_0000_0000_0000,
            0 <= dt <= 0x1_0000_0000,
    ;
}

/// Relies on `rand::random::<bool>`: one draw from the thread-local
/// generator. Nothing is promised of the value.
#[verifier::external_body]
pub(crate) fn coin_flip() -> bool {
    rand::random::<bool>()
}

/// Numeric helpers shared by the ball and the paddles.
pub struct Util {}

impl Util {
    pub fn clamp(value: &mut i64, low: i64, high: i64)
        ensures
            *final(value) == clamp_spec(*old(value) as int, low as int, high as int),
    {
        if *value < low {
            *value = low;
        } else if *value > high {
            *value = high;
        }
    }

    /// The nearest `i64` to `v`.
    pub fn saturate(v: i128) -> (r: i64)
        ensures
            r == saturate_spec(v as int),
    {
        if v < i64::MIN as i128 {
            i64::MIN
        } else if v > i64::MAX as i128 {
            i64::MAX
        } else {
            v as i64
        }
    }

    /// Sets `vec` to `(±x, ±y)`, each sign chosen by its flag.
    pub fn orient_vec(vec: &mut Vec2, x: i64, y: i64, x_positive: bool, y_positive: bool)
        requires
            x > i64::MIN,
            y > i64::MIN,
        ensures
            final(vec).x == (if x_positive { x as int } else { -x }),
            final(vec).y == (if y_positive { y as int } else { -y }),
    {
        vec.x = if x_positive { x } else { -x };
        vec.y = if y_positive { y } else { -y };
    }

    /// Sets `vec` to `(±x, ±y)`, each sign drawn at random.
    pub fn randomize_vec(vec: &mut Vec2, x: i64, y: i64)
        requires
            x > i64::MIN,
            y > i64::MIN,
        ensures
            final(vec).x == x || final(vec).x == -x,
            final(vec).y == y || final(vec).y == -y,
    {
        let x_positive = coin_flip();
        let y_positive = coin_flip();
        Self::orient_vec(vec, x, y, x_positive, y_positive);
    }
}

} // verus!
