//! Directional input and the player's movement.
//!
//! Every reachable position is a point whose coordinates have the form
//! `whole + surd / sqrt(2)` with integer parts: the player starts on integer
//! coordinates and each step moves `SPEED` along an axis or `SPEED / sqrt(2)`
//! along each axis of a diagonal. Positions are kept in that form, so the
//! movement is computed exactly.
use vstd::prelude::*;

verus! {

/// Distance moved per update while a direction is held.
pub const SPEED: i64 = 5;

/// Which of the four movement keys are held during one update.
#[derive(Clone, Copy, Debug, PartialEq, Eq)]
pub struct KeyState {
    /// Up.
    pub w: bool,
    /// Left.
    pub a: bool,
    /// Down.
    pub s: bool,
    /// Right.
    pub d: bool,
}

/// The raw directional request of one update; each axis is -1, 0 or 1.
#[derive(Clone, Copy, Debug, PartialEq, Eq)]
pub struct Intent {
    pub x: i8,
    pub y: i8,
}

/// One axis of an intent: +1 for the positive key, -1 for the negative one.
pub open spec fn axis(positive: bool, negative: bool) -> int {
    (if positive { 1int } else { 0int }) - (if negative { 1int } else { 0int })
}

impl Intent {
    /// Each axis is -1, 0 or 1.
    pub open spec fn wf(&self) -> bool {
        -1 <= self.x <= 1 && -1 <= self.y <= 1
    }

    pub open spec fn is_zero_spec(&self) -> bool {
        self.x == 0 && self.y == 0
    }

    /// Whether no direction is requested.
    pub fn is_zero(&self) -> (r: bool)
        ensures
            r == self.is_zero_spec(),
    {
        self.x == 0 && self.y == 0
    }
}

/// The intent that `keys` express: up and right count +1, down and left -1.
pub open spec fn intent_of(keys: KeyState) -> Intent {
    Intent { x: axis(keys.d, keys.a) as i8, y: axis(keys.w, keys.s) as i8 }
}

/// Reads the held keys into an intent vector.
pub fn sample_intent(keys: KeyState) -> (r: Intent)
    ensures
        r == intent_of(keys),
        r.wf(),
        r.x as int == axis(keys.d, keys.a),
        r.y as int == axis(keys.w, keys.s),
{
    let mut x: i8 = 0;
    let mut y: i8 = 0;
    if keys.w {
        y = y + 1;
    }
    if keys.s {
        y = y - 1;
    }
    if keys.a {
        x = x - 1;
    }
    if keys.d {
        x = x + 1;
    }
    Intent { x, y }
}

/// The real number `whole + surd / sqrt(2)`. Since `sqrt(2)` is irrational,
/// two such numbers are equal exactly when both parts are.
pub struct Surd {
    pub whole: int,
    pub surd: int,
}

/// A point or a displacement of the plane.
pub struct PlaneVec {
    pub x: Surd,
    pub y: Surd,
}

pub open spec fn surd_add(a: Surd, b: Surd) -> Surd {
    Surd { whole: a.whole + b.whole, surd: a.surd + b.surd }
}

pub open spec fn surd_scale(a: Surd, k: int) -> Surd {
    Surd { whole: k * a.whole, surd: k * a.surd }
}

/// Twice the square of `a`: `(w + s/sqrt 2)^2 * 2 == (2w^2 + s^2) + 2ws * sqrt 2`,
/// kept as the `Surd` with whole part `2w^2 + s^2` and surd part `4ws`.
pub open spec fn surd_twice_square(a: Surd) -> Surd {
    Surd { whole: 2 * a.whole * a.whole + a.surd * a.surd, surd: 4 * a.whole * a.surd }
}

pub open spec fn vec_add(a: PlaneVec, b: PlaneVec) -> PlaneVec {
    PlaneVec { x: surd_add(a.x, b.x), y: surd_add(a.y, b.y) }
}

pub open spec fn vec_scale(a: PlaneVec, k: int) -> PlaneVec {
    PlaneVec { x: surd_scale(a.x, k), y: surd_scale(a.y, k) }
}

/// Twice the squared length of `v`.
pub open spec fn vec_twice_norm_sq(v: PlaneVec) -> Surd {
    surd_add(surd_twice_square(v.x), surd_twice_square(v.y))
}

/// `v` has length one: its twice squared length is exactly 2.
pub open spec fn is_unit(v: PlaneVec) -> bool {
    vec_twice_norm_sq(v) == Surd { whole: 2, surd: 0 }
}

/// `normalize(i)`: an axis move stays on its axis; a diagonal one takes
/// `1/sqrt(2)` on each axis.
pub open spec fn direction(i: Intent) -> PlaneVec {
    if i.x != 0 && i.y != 0 {
        PlaneVec { x: Surd { whole: 0, surd: i.x as int }, y: Surd { whole: 0, surd: i.y as int } }
    } else {
        PlaneVec { x: Surd { whole: i.x as int, surd: 0 }, y: Surd { whole: i.y as int, surd: 0 } }
    }
}

/// Where one pass of the movement integrator takes `p` under intent `i`:
/// nowhere for the zero intent, else `SPEED` along `normalize(i)`.
pub open spec fn moved(p: PlaneVec, i: Intent) -> PlaneVec {
    if i.is_zero_spec() {
        p
    } else {
        vec_add(p, vec_scale(direction(i), SPEED as int))
    }
}

/// One exact coordinate, `whole + surd / sqrt(2)`.
#[derive(Clone, Copy, Debug, PartialEq, Eq)]
pub struct Coord {
    pub whole: i64,
    pub surd: i64,
}

impl View for Coord {
    type V = Surd;

    open spec fn view(&self) -> Surd {
        Surd { whole: self.whole as int, surd: self.surd as int }
    }
}

/// A point of the plane with exact coordinates.
#[derive(Clone, Copy, Debug, PartialEq, Eq)]
pub struct Position {
    pub x: Coord,
    pub y: Coord,
}

impl View for Position {
    type V = PlaneVec;

    open spec fn view(&self) -> PlaneVec {
        PlaneVec { x: self.x@, y: self.y@ }
    }
}

pub open spec fn fits_i64(n: int) -> bool {
    i64::MIN <= n <= i64::MAX
}

/// Every part of `v` can be stored in a `Position`.
pub open spec fn representable(v: PlaneVec) -> bool {
    fits_i64(v.x.whole) && fits_i64(v.x.surd) && fits_i64(v.y.whole) && fits_i64(v.y.surd)
}

/// Where the movement integrator leaves `p`: the moved point, or `p` itself
/// when the moved point cannot be stored.
pub open spec fn settled(p: PlaneVec, i: Intent) -> PlaneVec {
    if representable(moved(p, i)) {
        moved(p, i)
    } else {
        p
    }
}

impl Coord {
    /// The coordinate at `whole + dw + (surd + ds) / sqrt(2)`, if it can be stored.
    fn shifted(self, dw: i64, ds: i64) -> (r: Option<Coord>)
        ensures
            r is Some <==> fits_i64(self.whole + dw) && fits_i64(self.surd + ds),
            r matches Some(c) ==> c@ == surd_add(self@, Surd { whole: dw as int, surd: ds as int }),
    {
        match (self.whole.checked_add(dw), self.surd.checked_add(ds)) {
            (Some(whole), Some(surd)) => Some(Coord { whole, surd }),
            _ => None,
        }
    }
}

impl Position {
    /// A position on integer coordinates.
    pub fn at(x: i64, y: i64) -> (r: Position)
        ensures
            r@ == (PlaneVec { x: Surd { whole: x as int, surd: 0 }, y: Surd { whole: y as int, surd: 0 } }),
    {
        Position { x: Coord { whole: x, surd: 0 }, y: Coord { whole: y, surd: 0 } }
    }

    /// Applies one pass of the movement integrator for intent `i`. The zero
    /// intent leaves the position as it is; so does a move whose target
    /// cannot be stored.
    pub fn integrate(&mut self, i: Intent)
        requires
            i.wf(),
        ensures
            final(self)@ == settled(old(self)@, i),
    {
        if i.is_zero() {
            return;
        }
        let k = i.x != 0 && i.y != 0;
        let sx: i64 = i.x as i64 * SPEED;
        let sy: i64 = i.y as i64 * SPEED;
        let (xw, xs, yw, ys) = if k {
            (0i64, sx, 0i64, sy)
        } else {
            (sx, 0i64, sy, 0i64)
        };
        match (self.x.shifted(xw, xs), self.y.shifted(yw, ys)) {
            (Some(x), Some(y)) => {
                self.x = x;
                self.y = y;
            },
            _ => {},
        }
    }
}

/// A direction requested by a non-zero intent has length exactly one.
pub proof fn lemma_direction_is_unit(i: Intent)
    requires
        i.wf(),
        !i.is_zero_spec(),
    ensures
        is_unit(direction(i)),
{
    let d = direction(i);
    let x = i.x as int;
    let y = i.y as int;
    assert(vec_twice_norm_sq(d) == (Surd { whole: 2, surd: 0 })) by (nonlinear_arith)
        requires
            d == direction(i),
            x == i.x,
            y == i.y,
            -1 <= x <= 1,
            -1 <= y <= 1,
            x != 0 || y != 0,
    ;
}

proof fn lemma_scale_sum(a: Surd, j: int, k: int)
    ensures
        surd_add(surd_scale(a, j), surd_scale(a, k)) == surd_scale(a, j + k),
        surd_scale(a, 0) == (Surd { whole: 0, surd: 0 }),
{
    assert(j * a.whole + k * a.whole == (j + k) * a.whole) by (nonlinear_arith);
    assert(j * a.surd + k * a.surd == (j + k) * a.surd) by (nonlinear_arith);
}

/// One pass under a non-zero intent moves `p` by `SPEED * normalize(i)`.
pub proof fn lemma_one_pass(p: PlaneVec, i: Intent)
    requires
        i.wf(),
        !i.is_zero_spec(),
    ensures
        moved(p, i) == vec_add(p, vec_scale(direction(i), SPEED as int)),
        representable(moved(p, i)) ==> settled(p, i) == moved(p, i),
        is_unit(direction(i)),
{
    lemma_direction_is_unit(i);
}

/// The point reached after `n` passes under the same intent.
pub open spec fn moved_n(p: PlaneVec, i: Intent, n: nat) -> PlaneVec
    decreases n,
{
    if n == 0 {
        p
    } else {
        moved(moved_n(p, i, (n - 1) as nat), i)
    }
}

/// `n` passes under one held non-zero intent move `p` by `n * SPEED` along
/// `normalize(i)`: a displacement of length exactly `n * SPEED`.
pub proof fn lemma_repeated_passes(p: PlaneVec, i: Intent, n: nat)
    requires
        i.wf(),
        !i.is_zero_spec(),
    ensures
        moved_n(p, i, n) == vec_add(p, vec_scale(direction(i), n * SPEED)),
        vec_twice_norm_sq(vec_scale(direction(i), n * SPEED)) == (Surd {
            whole: 2 * (n * SPEED) * (n * SPEED),
            surd: 0,
        }),
    decreases n,
{
    let d = direction(i);
    let k = n * SPEED;
    lemma_scale_sum(d.x, 0, 0);
    lemma_scale_sum(d.y, 0, 0);
    if n > 0 {
        let j = (n - 1) * SPEED;
        lemma_repeated_passes(p, i, (n - 1) as nat);
        assert(j + SPEED == k) by (nonlinear_arith)
            requires
                j == (n - 1) * SPEED,
                k == n * SPEED,
        ;
        lemma_scale_sum(d.x, j, SPEED as int);
        lemma_scale_sum(d.y, j, SPEED as int);
    }
    let x = i.x as int;
    let y = i.y as int;
    assert(vec_twice_norm_sq(vec_scale(d, k)) == (Surd { whole: 2 * k * k, surd: 0 })) by (
    nonlinear_arith)
        requires
            d == direction(i),
            x == i.x,
            y == i.y,
            -1 <= x <= 1,
            -1 <= y <= 1,
            x != 0 || y != 0,
    ;
}

/// With no key held, a pass leaves the position where it was.
pub proof fn lemma_no_keys_no_motion(p: PlaneVec)
    ensures
        moved(p, intent_of(KeyState { w: false, a: false, s: false, d: false })) == p,
{
}

} // verus!
