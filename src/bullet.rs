use vstd::prelude::*;

use crate::geometry::{
    clamp_i64, cosine_milli, get_direction, lemma_cardinal_directions, is_bearing, saturate, sine_milli, turn_of,
    unit_vector, Position, UNIT_ONE,
};

verus! {

/// Kinematic and lifecycle state of one projectile.
#[derive(Clone, Copy, Debug, PartialEq, Eq, Structural)]
pub struct Bullet {
    /// Millidegrees, 0 up, increasing clockwise; kept as given.
    pub direction: i64,
    /// Speed units per tick.
    pub speed: i64,
    /// Set by the script; the bullet stays, inert, until it is reaped.
    pub vanished: bool,
}

/// Where one tick of motion takes a bullet at `p`: `speed` along the table
/// unit vector of its direction, saturating at the range of `i64`.
pub open spec fn moved(b: Bullet, p: Position) -> Position {
    let m = turn_of(b.direction as int);
    Position {
        x: clamp_i64(p.x + b.speed * sine_milli(m)) as i64,
        y: clamp_i64(p.y + b.speed * cosine_milli(m)) as i64,
    }
}

/// Where `n` ticks of motion take a bullet at `p`.
pub open spec fn moved_n(b: Bullet, p: Position, n: nat) -> Position
    decreases n,
{
    if n == 0 {
        p
    } else {
        moved(b, moved_n(b, p, (n - 1) as nat))
    }
}

/// `b` with its direction replaced by `d`.
pub open spec fn with_direction(b: Bullet, d: i64) -> Bullet {
    Bullet { direction: d, ..b }
}

/// `b` with its speed replaced by `s`.
pub open spec fn with_speed(b: Bullet, s: i64) -> Bullet {
    Bullet { speed: s, ..b }
}

impl Bullet {
    /// A visible bullet.
    pub fn new(direction: i64, speed: i64) -> (r: Bullet)
        ensures
            r == (Bullet { direction, speed, vanished: false }),
    {
        Bullet { direction, speed, vanished: false }
    }

    /// Advances `position` by one tick of this bullet's motion.
    pub fn update(&self, position: &mut Position)
        ensures
            *final(position) == moved(*self, *old(position)),
    {
        let (s, c) = unit_vector(self.direction);
        let v = self.speed as i128;
        let s = s as i128;
        let c = c as i128;
        assert(-0x8000_0000_0000_0000 * 10000000 <= v * s <= 0x8000_0000_0000_0000 * 10000000)
            by (nonlinear_arith)
            requires
                -0x8000_0000_0000_0000 <= v <= 0x8000_0000_0000_0000,
                -10000000 <= s <= 10000000,
        ;
        assert(-0x8000_0000_0000_0000 * 10000000 <= v * c <= 0x8000_0000_0000_0000 * 10000000)
            by (nonlinear_arith)
            requires
                -0x8000_0000_0000_0000 <= v <= 0x8000_0000_0000_0000,
                -10000000 <= c <= 10000000,
        ;
        let x = saturate(position.x as i128 + v * s);
        let y = saturate(position.y as i128 + v * c);
        *position = Position { x, y };
    }

    /// Current direction, as stored.
    pub fn bullet_direction(&self) -> (r: i64)
        ensures
            r == self.direction,
    {
        self.direction
    }

    /// Current speed.
    pub fn bullet_speed(&self) -> (r: i64)
        ensures
            r == self.speed,
    {
        self.speed
    }

    /// Bearing from this bullet at `position` to `target`.
    pub fn aim_direction(&self, position: &Position, target: &Position) -> (r: i64)
        ensures
            is_bearing(*position, *target, r as int),
    {
        get_direction(position, target)
    }

    /// Marks the bullet vanished; it is not removed and its script goes on.
    pub fn vanish(&mut self)
        ensures
            *final(self) == (Bullet { vanished: true, ..*old(self) }),
    {
        self.vanished = true;
    }

    /// Replaces the direction, with no normalisation.
    pub fn change_direction(&mut self, direction: i64)
        ensures
            *final(self) == with_direction(*old(self), direction),
    {
        self.direction = direction;
    }

    /// Replaces the speed.
    pub fn change_speed(&mut self, speed: i64)
        ensures
            *final(self) == with_speed(*old(self), speed),
    {
        self.speed = speed;
    }
}

/// A bullet at rest stays where it is, however many ticks pass.
pub proof fn lemma_resting_bullet_stays(b: Bullet, p: Position, n: nat)
    requires
        b.speed == 0,
    ensures
        moved_n(b, p, n) == p,
    decreases n,
{
    if n > 0 {
        lemma_resting_bullet_stays(b, p, (n - 1) as nat);
    }
}

/// A direction set is read back exactly as given.
pub proof fn lemma_direction_read_back(b: Bullet, d: i64)
    ensures
        with_direction(b, d).direction == d,
{
}

/// `a + m * step` lies between `a` and `a + n * step` for `m <= n`.
proof fn lemma_between(a: int, step: int, m: nat, n: nat)
    requires
        m <= n,
    ensures
        a <= a + m * step <= a + n * step || a + n * step <= a + m * step <= a,
{
    if step >= 0 {
        assert(0 <= m * step <= n * step) by (nonlinear_arith)
            requires
                step >= 0,
                m <= n,
        ;
    } else {
        assert(n * step <= m * step <= 0) by (nonlinear_arith)
            requires
                step < 0,
                m <= n,
        ;
    }
}

/// A bullet whose direction and speed stay fixed moves the same step every
/// tick: after `n` ticks it has moved `n` times `speed` along its unit
/// vector, as long as it ends in range.
pub proof fn lemma_straight_motion(b: Bullet, p: Position, n: nat)
    requires
        i64::MIN <= p.x + n * (b.speed * sine_milli(turn_of(b.direction as int))) <= i64::MAX,
        i64::MIN <= p.y + n * (b.speed * cosine_milli(turn_of(b.direction as int))) <= i64::MAX,
    ensures
        moved_n(b, p, n) == (Position {
            x: (p.x + n * (b.speed * sine_milli(turn_of(b.direction as int)))) as i64,
            y: (p.y + n * (b.speed * cosine_milli(turn_of(b.direction as int)))) as i64,
        }),
    decreases n,
{
    let sx = b.speed * sine_milli(turn_of(b.direction as int));
    let sy = b.speed * cosine_milli(turn_of(b.direction as int));
    if n > 0 {
        let m = (n - 1) as nat;
        assert(m * sx == n * sx - sx) by (nonlinear_arith)
            requires
                m == n - 1,
        ;
        assert(m * sy == n * sy - sy) by (nonlinear_arith)
            requires
                m == n - 1,
        ;
        lemma_between(p.x as int, sx, m, n);
        lemma_between(p.y as int, sy, m, n);
        lemma_straight_motion(b, p, m);
    } else {
        assert(n * sx == 0 && n * sy == 0) by (nonlinear_arith)
            requires
                n == 0,
        ;
    }
}

/// A bullet heading up (direction 0) at speed `v` moves `n * v` speed units
/// up in `n` ticks and not sideways, as long as it stays in range.
pub proof fn lemma_upward_motion(b: Bullet, p: Position, n: nat)
    requires
        b.direction == 0,
        i64::MIN <= p.y + n * (b.speed * UNIT_ONE) <= i64::MAX,
    ensures
        moved_n(b, p, n) == (Position { x: p.x, y: (p.y + n * (b.speed * UNIT_ONE)) as i64 }),
{
    assert(turn_of(0) == 0);
    lemma_cardinal_directions();
    assert(n * (b.speed * 0) == 0) by (nonlinear_arith);
    lemma_straight_motion(b, p, n);
}

/// A bullet heading down (direction 180 degrees) at speed `v` moves `n * v`
/// speed units down in `n` ticks and not sideways, as long as it stays in
/// range.
pub proof fn lemma_downward_motion(b: Bullet, p: Position, n: nat)
    requires
        b.direction == 180000,
        i64::MIN <= p.y - n * (b.speed * UNIT_ONE) <= i64::MAX,
    ensures
        moved_n(b, p, n) == (Position { x: p.x, y: (p.y - n * (b.speed * UNIT_ONE)) as i64 }),
{
    assert(turn_of(180000) == 180000);
    lemma_cardinal_directions();
    assert(n * (b.speed * 0) == 0) by (nonlinear_arith);
    assert(n * (b.speed * -UNIT_ONE) == -(n * (b.speed * UNIT_ONE))) by (nonlinear_arith);
    lemma_straight_motion(b, p, n);
}

} // verus!
