use vstd::prelude::*;

verus! {

/// Millidegrees in one degree.
pub const DEGREE: i64 = 1000;

/// Millidegrees in a full turn.
pub const FULL_TURN: i64 = 360000;

/// Fixed-point value of a sine or cosine of one.
pub const SINE_ONE: i64 = 10000;

/// Speed units in one world unit per tick.
pub const SPEED_ONE: i64 = 1000;

/// Fixed-point value of an interpolated sine or cosine of one: a table unit
/// for each millidegree of a degree.
pub const UNIT_ONE: i64 = 10000000;

/// Position units in one world unit: a speed unit times an interpolated unit.
pub const POSITION_ONE: i64 = 10000000000;

/// A point of the world, in position units.
#[derive(Clone, Copy, Debug, PartialEq, Eq, Structural)]
pub struct Position {
    pub x: i64,
    pub y: i64,
}

/// Sines of 0 to 90 whole degrees, times `SINE_ONE`, rounded.
pub open spec fn quarter_sines() -> Seq<i64> {
    seq![0, 175, 349, 523, 698, 872, 1045, 1219, 1392, 1564, 1736, 1908, 2079, 2250, 2419, 2588, 2756, 2924, 3090, 3256, 3420, 3584, 3746, 3907, 4067, 4226, 4384, 4540, 4695, 4848, 5000, 5150, 5299, 5446, 5592, 5736, 5878, 6018, 6157, 6293, 6428, 6561, 6691, 6820, 6947, 7071, 7193, 7314, 7431, 7547, 7660, 7771, 7880, 7986, 8090, 8192, 8290, 8387, 8480, 8572, 8660, 8746, 8829, 8910, 8988, 9063, 9135, 9205, 9272, 9336, 9397, 9455, 9511, 9563, 9613, 9659, 9703, 9744, 9781, 9816, 9848, 9877, 9903, 9925, 9945, 9962, 9976, 9986, 9994, 9998, 10000]
}

/// Sine of a whole number of degrees in [0, 360), times `SINE_ONE`.
pub open spec fn sine_deg(k: int) -> int {
    if k <= 90 {
        quarter_sines()[k] as int
    } else if k <= 180 {
        quarter_sines()[180 - k] as int
    } else if k <= 270 {
        -(quarter_sines()[k - 180] as int)
    } else {
        -(quarter_sines()[360 - k] as int)
    }
}

/// Cosine of a whole number of degrees in [0, 360), times `SINE_ONE`.
pub open spec fn cosine_deg(k: int) -> int {
    sine_deg((k + 90) % 360)
}

/// A direction in millidegrees brought into [0, `FULL_TURN`).
pub open spec fn turn_of(direction: int) -> int {
    direction % (FULL_TURN as int)
}

/// Sine at `m` millidegrees in [0, `FULL_TURN`), interpolated linearly between
/// the table's whole degrees, in units of `UNIT_ONE`.
pub open spec fn sine_milli(m: int) -> int {
    let k = m / 1000;
    let f = m % 1000;
    sine_deg(k) * (1000 - f) + sine_deg((k + 1) % 360) * f
}

/// Cosine at `m` millidegrees in [0, `FULL_TURN`), in units of `UNIT_ONE`.
pub open spec fn cosine_milli(m: int) -> int {
    sine_milli((m + 90000) % 360000)
}

/// The interpolated unit vector points straight up at 0, right at 90,
/// down at 180 and left at 270 degrees.
pub proof fn lemma_cardinal_directions()
    ensures
        sine_milli(0) == 0,
        cosine_milli(0) == UNIT_ONE,
        sine_milli(90000) == UNIT_ONE,
        cosine_milli(90000) == 0,
        sine_milli(180000) == 0,
        cosine_milli(180000) == -UNIT_ONE,
        sine_milli(270000) == -UNIT_ONE,
        cosine_milli(270000) == 0,
{
    let q = quarter_sines();
    assert(q[0] == 0 && q[1] == 175 && q[89] == 9998 && q[90] == 10000);
    assert(sine_deg(0) == 0 && sine_deg(1) == 175);
    assert(sine_deg(90) == 10000 && sine_deg(91) == 9998);
    assert(sine_deg(180) == 0 && sine_deg(181) == -175);
    assert(sine_deg(270) == -10000 && sine_deg(271) == -9998);
    assert(90000int / 1000 == 90 && 90000int % 1000 == 0);
    assert(180000int / 1000 == 180 && 180000int % 1000 == 0);
    assert(270000int / 1000 == 270 && 270000int % 1000 == 0);
    assert(0int / 1000 == 0 && 0int % 1000 == 0);
    assert((0int + 90000) % 360000 == 90000);
    assert((90000int + 90000) % 360000 == 180000);
    assert((180000int + 90000) % 360000 == 270000);
    assert((270000int + 90000) % 360000 == 0);
}

/// How far the unit vector of whole degree `k` points along `(dx, dy)`.
pub open spec fn alignment(dx: int, dy: int, k: int) -> int {
    dx * sine_deg(k) + dy * cosine_deg(k)
}

/// `k` is the first whole degree whose unit vector points furthest along
/// `(dx, dy)`.
pub open spec fn is_best_degree(dx: int, dy: int, k: int) -> bool {
    &&& 0 <= k < 360
    &&& forall|j: int| 0 <= j < 360 ==> #[trigger] alignment(dx, dy, j) <= alignment(dx, dy, k)
    &&& forall|j: int| 0 <= j < k ==> #[trigger] alignment(dx, dy, j) < alignment(dx, dy, k)
}

/// The `j`-th millidegree offset tried around a whole degree: 0, -1, 1, -2,
/// 2, and so on.
pub open spec fn offset(j: int) -> int {
    if j % 2 == 0 {
        j / 2
    } else {
        -((j + 1) / 2)
    }
}

/// The `j`-th millidegree direction, in [0, `FULL_TURN`), tried around whole
/// degree `k`.
pub open spec fn candidate(k: int, j: int) -> int {
    (k * 1000 + offset(j)) % 360000
}

/// How far the interpolated unit vector at `m` millidegrees is from parallel
/// to `(dx, dy)`: the magnitude of their cross product.
pub open spec fn skew(dx: int, dy: int, m: int) -> int {
    let c = dx * cosine_milli(m) - dy * sine_milli(m);
    if c < 0 {
        -c
    } else {
        c
    }
}

/// Among the 2001 directions within one degree of whole degree `k`, the
/// `j`-th tried is the first that is most nearly parallel to `(dx, dy)`.
pub open spec fn is_finest(dx: int, dy: int, k: int, j: int) -> bool {
    &&& 0 <= j <= 2000
    &&& forall|i: int| 0 <= i <= 2000 ==> #[trigger] skew(dx, dy, candidate(k, i)) >= skew(dx, dy, candidate(k, j))
    &&& forall|i: int| 0 <= i < j ==> #[trigger] skew(dx, dy, candidate(k, i)) > skew(dx, dy, candidate(k, j))
}

/// A direction in [0, `FULL_TURN`) written in (-180, 180] degrees.
pub open spec fn signed_turn(m: int) -> int {
    if m <= 180000 {
        m
    } else {
        m - 360000
    }
}

/// `r` is the bearing, in millidegrees clockwise from up and in (-180, 180]
/// degrees, from `from` to `to`: first the whole degree that best matches the
/// offset between them, then, within one degree of it, the millidegree whose
/// interpolated unit vector is most nearly parallel to that offset.
pub open spec fn is_bearing(from: Position, to: Position, r: int) -> bool {
    exists|k: int, j: int|
        #[trigger] is_finest(to.x - from.x, to.y - from.y, k, j)
            && is_best_degree(to.x - from.x, to.y - from.y, k)
            && r == signed_turn(candidate(k, j))
}

/// Entry `k` of the quarter sine table.
fn quarter_sine(k: usize) -> (r: i64)
    requires
        k <= 90,
    ensures
        r == quarter_sines()[k as int],
        0 <= r <= SINE_ONE,
{
    let table: [i64; 91] = [0, 175, 349, 523, 698, 872, 1045, 1219, 1392, 1564, 1736, 1908, 2079, 2250, 2419, 2588, 2756, 2924, 3090, 3256, 3420, 3584, 3746, 3907, 4067, 4226, 4384, 4540, 4695, 4848, 5000, 5150, 5299, 5446, 5592, 5736, 5878, 6018, 6157, 6293, 6428, 6561, 6691, 6820, 6947, 7071, 7193, 7314, 7431, 7547, 7660, 7771, 7880, 7986, 8090, 8192, 8290, 8387, 8480, 8572, 8660, 8746, 8829, 8910, 8988, 9063, 9135, 9205, 9272, 9336, 9397, 9455, 9511, 9563, 9613, 9659, 9703, 9744, 9781, 9816, 9848, 9877, 9903, 9925, 9945, 9962, 9976, 9986, 9994, 9998, 10000];
    proof {
        assert(table@ =~= quarter_sines());
    }
    table[k]
}

/// Table sine of whole degree `k`.
pub fn sine_of_degree(k: usize) -> (r: i64)
    requires
        k < 360,
    ensures
        r == sine_deg(k as int),
        -SINE_ONE <= r <= SINE_ONE,
{
    if k <= 90 {
        quarter_sine(k)
    } else if k <= 180 {
        quarter_sine(180 - k)
    } else if k <= 270 {
        -quarter_sine(k - 180)
    } else {
        -quarter_sine(360 - k)
    }
}

/// Table cosine of whole degree `k`.
pub fn cosine_of_degree(k: usize) -> (r: i64)
    requires
        k < 360,
    ensures
        r == cosine_deg(k as int),
        -SINE_ONE <= r <= SINE_ONE,
{
    sine_of_degree((k + 90) % 360)
}

/// Interpolated sine at `m` millidegrees.
pub fn sine_at(m: u64) -> (r: i64)
    requires
        m < 360000,
    ensures
        r == sine_milli(m as int),
        -UNIT_ONE <= r <= UNIT_ONE,
{
    let k = m / 1000;
    let f = m % 1000;
    let s0 = sine_of_degree(k as usize);
    let s1 = sine_of_degree(((k + 1) % 360) as usize);
    let f = f as i64;
    assert(-10000 * (1000 - f) <= s0 * (1000 - f) <= 10000 * (1000 - f)) by (nonlinear_arith)
        requires
            -10000 <= s0 <= 10000,
            0 <= f < 1000,
    ;
    assert(-10000 * f <= s1 * f <= 10000 * f) by (nonlinear_arith)
        requires
            -10000 <= s1 <= 10000,
            0 <= f < 1000,
    ;
    s0 * (1000 - f) + s1 * f
}

/// Interpolated cosine at `m` millidegrees.
pub fn cosine_at(m: u64) -> (r: i64)
    requires
        m < 360000,
    ensures
        r == cosine_milli(m as int),
        -UNIT_ONE <= r <= UNIT_ONE,
{
    sine_at((m + 90000) % 360000)
}

/// Unit vector `(sine, cosine)` of a direction in millidegrees, interpolated
/// between whole degrees, in units of `UNIT_ONE`.
pub fn unit_vector(direction: i64) -> (r: (i64, i64))
    ensures
        r.0 == sine_milli(turn_of(direction as int)),
        r.1 == cosine_milli(turn_of(direction as int)),
        -UNIT_ONE <= r.0 <= UNIT_ONE,
        -UNIT_ONE <= r.1 <= UNIT_ONE,
{
    let m: i64 = match direction.checked_rem_euclid(FULL_TURN) {
        Some(v) => v,
        None => 0,
    };
    assert(m == direction as int % (FULL_TURN as int));
    (sine_at(m as u64), cosine_at(m as u64))
}

/// `v` moved into the range of `i64`.
pub open spec fn clamp_i64(v: int) -> int {
    if v < i64::MIN {
        i64::MIN as int
    } else if v > i64::MAX {
        i64::MAX as int
    } else {
        v
    }
}

/// Saturating conversion to `i64`.
pub fn saturate(v: i128) -> (r: i64)
    ensures
        r == clamp_i64(v as int),
{
    if v < i64::MIN as i128 {
        i64::MIN
    } else if v > i64::MAX as i128 {
        i64::MAX
    } else {
        v as i64
    }
}

/// `alignment` of whole degree `k` for an offset that fits in 65 bits.
fn alignment_of(dx: i128, dy: i128, k: usize) -> (r: i128)
    requires
        k < 360,
        -0x2_0000_0000_0000_0000 <= dx <= 0x2_0000_0000_0000_0000,
        -0x2_0000_0000_0000_0000 <= dy <= 0x2_0000_0000_0000_0000,
    ensures
        r == alignment(dx as int, dy as int, k as int),
{
    let s = sine_of_degree(k) as i128;
    let c = cosine_of_degree(k) as i128;
    assert(-0x2_0000_0000_0000_0000 * 10000 <= dx * s <= 0x2_0000_0000_0000_0000 * 10000)
        by (nonlinear_arith)
        requires
            -0x2_0000_0000_0000_0000 <= dx <= 0x2_0000_0000_0000_0000,
            -10000 <= s <= 10000,
    ;
    assert(-0x2_0000_0000_0000_0000 * 10000 <= dy * c <= 0x2_0000_0000_0000_0000 * 10000)
        by (nonlinear_arith)
        requires
            -0x2_0000_0000_0000_0000 <= dy <= 0x2_0000_0000_0000_0000,
            -10000 <= c <= 10000,
    ;
    dx * s + dy * c
}

/// `skew` at millidegree `m` for an offset that fits in 65 bits.
fn skew_of(dx: i128, dy: i128, m: u64) -> (r: i128)
    requires
        m < 360000,
        -0x2_0000_0000_0000_0000 <= dx <= 0x2_0000_0000_0000_0000,
        -0x2_0000_0000_0000_0000 <= dy <= 0x2_0000_0000_0000_0000,
    ensures
        r == skew(dx as int, dy as int, m as int),
{
    let s = sine_at(m) as i128;
    let c = cosine_at(m) as i128;
    assert(-0x2_0000_0000_0000_0000 * 10000000 <= dx * c <= 0x2_0000_0000_0000_0000 * 10000000)
        by (nonlinear_arith)
        requires
            -0x2_0000_0000_0000_0000 <= dx <= 0x2_0000_0000_0000_0000,
            -10000000 <= c <= 10000000,
    ;
    assert(-0x2_0000_0000_0000_0000 * 10000000 <= dy * s <= 0x2_0000_0000_0000_0000 * 10000000)
        by (nonlinear_arith)
        requires
            -0x2_0000_0000_0000_0000 <= dy <= 0x2_0000_0000_0000_0000,
            -10000000 <= s <= 10000000,
    ;
    let v = dx * c - dy * s;
    if v < 0 {
        -v
    } else {
        v
    }
}

/// The `j`-th direction tried around whole degree `k`.
fn candidate_of(k: usize, j: u64) -> (r: u64)
    requires
        k < 360,
        j <= 2000,
    ensures
        r == candidate(k as int, j as int),
        r < 360000,
{
    let base = (k as i64) * DEGREE;
    let off: i64 = if j % 2 == 0 {
        (j / 2) as i64
    } else {
        -(((j + 1) / 2) as i64)
    };
    let c = base + off;
    if c < 0 {
        (c + FULL_TURN) as u64
    } else if c >= FULL_TURN {
        (c - FULL_TURN) as u64
    } else {
        c as u64
    }
}

/// First whole degree whose table unit vector points furthest along
/// `(dx, dy)`.
fn best_degree(dx: i128, dy: i128) -> (k: usize)
    requires
        -0x2_0000_0000_0000_0000 <= dx <= 0x2_0000_0000_0000_0000,
        -0x2_0000_0000_0000_0000 <= dy <= 0x2_0000_0000_0000_0000,
    ensures
        is_best_degree(dx as int, dy as int, k as int),
{
    let mut best: usize = 0;
    let mut best_alignment = alignment_of(dx, dy, 0);
    let mut k: usize = 1;
    while k < 360
        invariant
            1 <= k <= 360,
            best < k,
            -0x2_0000_0000_0000_0000 <= dx <= 0x2_0000_0000_0000_0000,
            -0x2_0000_0000_0000_0000 <= dy <= 0x2_0000_0000_0000_0000,
            best_alignment == alignment(dx as int, dy as int, best as int),
            forall|j: int| 0 <= j < k ==> #[trigger] alignment(dx as int, dy as int, j) <= best_alignment,
            forall|j: int| 0 <= j < best ==> #[trigger] alignment(dx as int, dy as int, j) < best_alignment,
        decreases 360 - k,
    {
        let a = alignment_of(dx, dy, k);
        if a > best_alignment {
            best = k;
            best_alignment = a;
        }
        k = k + 1;
    }
    best
}

/// Bearing from `from` to `to` in millidegrees clockwise from up, in
/// (-180, 180] degrees: the whole degree that best matches `to - from`,
/// refined to the millidegree within one degree of it whose interpolated
/// unit vector is most nearly parallel to `to - from`.
///
/// When the two points coincide every direction matches equally and the
/// result is 0.
pub fn get_direction(from: &Position, to: &Position) -> (r: i64)
    ensures
        is_bearing(*from, *to, r as int),
        -180000 < r <= 180000,
{
    let dx: i128 = to.x as i128 - from.x as i128;
    let dy: i128 = to.y as i128 - from.y as i128;
    let k = best_degree(dx, dy);
    let mut best: u64 = 0;
    let mut best_skew = skew_of(dx, dy, candidate_of(k, 0));
    let mut j: u64 = 1;
    while j <= 2000
        invariant
            1 <= j <= 2001,
            best < j,
            k < 360,
            dx == to.x - from.x,
            dy == to.y - from.y,
            best_skew == skew(dx as int, dy as int, candidate(k as int, best as int)),
            forall|i: int| 0 <= i < j ==> #[trigger] skew(dx as int, dy as int, candidate(k as int, i)) >= best_skew,
            forall|i: int| 0 <= i < best ==> #[trigger] skew(dx as int, dy as int, candidate(k as int, i)) > best_skew,
        decreases 2001 - j,
    {
        let v = skew_of(dx, dy, candidate_of(k, j));
        if v < best_skew {
            best = j;
            best_skew = v;
        }
        j = j + 1;
    }
    assert(is_finest(dx as int, dy as int, k as int, best as int));
    let m = candidate_of(k, best) as i64;
    if m <= 180000 {
        m
    } else {
        m - FULL_TURN
    }
}

/// The bearing between two points is determined by them alone: whatever two
/// results are called bearings from `from` to `to` are equal, also when the
/// points coincide.
pub proof fn lemma_bearing_unique(from: Position, to: Position, r1: int, r2: int)
    requires
        is_bearing(from, to, r1),
        is_bearing(from, to, r2),
    ensures
        r1 == r2,
{
    let dx = to.x - from.x;
    let dy = to.y - from.y;
    let (k1, j1) = choose|k: int, j: int|
        #[trigger] is_finest(dx, dy, k, j) && is_best_degree(dx, dy, k) && r1 == signed_turn(candidate(k, j));
    let (k2, j2) = choose|k: int, j: int|
        #[trigger] is_finest(dx, dy, k, j) && is_best_degree(dx, dy, k) && r2 == signed_turn(candidate(k, j));
    assert(alignment(dx, dy, k1) <= alignment(dx, dy, k2));
    assert(alignment(dx, dy, k2) <= alignment(dx, dy, k1));
    if k1 < k2 {
        assert(alignment(dx, dy, k1) < alignment(dx, dy, k2));
    } else if k2 < k1 {
        assert(alignment(dx, dy, k2) < alignment(dx, dy, k1));
    }
    assert(skew(dx, dy, candidate(k1, j1)) <= skew(dx, dy, candidate(k1, j2)));
    assert(skew(dx, dy, candidate(k1, j2)) <= skew(dx, dy, candidate(k1, j1)));
    if j1 < j2 {
        assert(skew(dx, dy, candidate(k1, j1)) > skew(dx, dy, candidate(k1, j2)));
    } else if j2 < j1 {
        assert(skew(dx, dy, candidate(k1, j2)) > skew(dx, dy, candidate(k1, j1)));
    }
}

/// Two points at the same place have bearing 0.
pub proof fn lemma_bearing_of_same_point(p: Position)
    ensures
        is_bearing(p, p, 0),
{
    assert forall|j: int| 0 <= j < 360 implies #[trigger] alignment(0, 0, j) <= alignment(0, 0, 0) by {}
    assert(is_best_degree(p.x - p.x, p.y - p.y, 0));
    assert(candidate(0, 0) == 0);
    assert(is_finest(p.x - p.x, p.y - p.y, 0, 0));
}

} // verus!
