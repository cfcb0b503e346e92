use vstd::prelude::*;

use crate::budget::{after_request, free_slots, SpawnBudget};
use crate::bullet::{lemma_resting_bullet_stays, moved, moved_n, Bullet};
use crate::geometry::{get_direction, is_bearing, Position, SPEED_ONE};

verus! {

/// Units of rank in a rank of one.
pub const RANK_ONE: u32 = 1000;

/// The difficulty rank, one half.
pub const RANK: u32 = 500;

/// Units of a random fraction in one.
pub const RANDOM_ONE: u32 = 0x100_0000;

/// Whether a bullet moves on its own or is driven by a script of type `S`.
pub enum BulletType<S> {
    Simple,
    WithRunner(S),
}

/// One live bullet: its motion state, where it is, and its script if any.
pub struct Entry<S> {
    pub bullet: Bullet,
    pub position: Position,
    pub kind: BulletType<S>,
}

/// The rectangle, in position units, inside which bullets are on screen.
#[derive(Clone, Copy, Debug, PartialEq, Eq, Structural)]
pub struct Bounds {
    pub min_x: i64,
    pub max_x: i64,
    pub min_y: i64,
    pub max_y: i64,
}

/// `p` lies outside `b` on either axis.
pub open spec fn is_outside(p: Position, b: Bounds) -> bool {
    p.x < b.min_x || p.x > b.max_x || p.y < b.min_y || p.y > b.max_y
}

/// Whether `e` is removed at the end of a tick, `terminal` telling whether its
/// script has finished: a plain bullet once it is outside, a scripted one once
/// its script has finished and it is outside or vanished.
pub open spec fn removable<S>(e: Entry<S>, terminal: bool, b: Bounds) -> bool {
    match e.kind {
        BulletType::Simple => is_outside(e.position, b),
        BulletType::WithRunner(_) => terminal && (is_outside(e.position, b) || e.bullet.vanished),
    }
}

/// The entries of `s` that stay, in order; `t[i]` tells whether the script of
/// `s[i]` has finished.
pub open spec fn survivors<S>(s: Seq<Entry<S>>, t: Seq<bool>, b: Bounds) -> Seq<Entry<S>>
    decreases s.len(),
{
    if s.len() == 0 {
        Seq::empty()
    } else {
        let rest = survivors(s.drop_last(), t, b);
        if removable(s.last(), t[s.len() - 1], b) {
            rest
        } else {
            rest.push(s.last())
        }
    }
}

/// `e` after one tick of motion.
pub open spec fn moved_entry<S>(e: Entry<S>) -> Entry<S> {
    Entry { position: moved(e.bullet, e.position), ..e }
}

/// A new bullet spawned at `position`.
pub open spec fn spawned<S>(position: Position, direction: i64, speed: i64, kind: BulletType<S>) -> Entry<S> {
    Entry { bullet: Bullet { direction, speed, vanished: false }, position, kind }
}

/// Tells whether `position` lies outside `bounds`.
pub fn outside_check(position: &Position, bounds: &Bounds) -> (r: bool)
    ensures
        r == is_outside(*position, *bounds),
{
    position.x < bounds.min_x || position.x > bounds.max_x || position.y < bounds.min_y
        || position.y > bounds.max_y
}

/// Tells whether `entry` is removed at the end of a tick.
pub fn should_despawn<S>(entry: &Entry<S>, terminal: bool, bounds: &Bounds) -> (r: bool)
    ensures
        r == removable(*entry, terminal, *bounds),
{
    match &entry.kind {
        BulletType::Simple => outside_check(&entry.position, bounds),
        BulletType::WithRunner(_) => terminal && (outside_check(&entry.position, bounds)
            || entry.bullet.vanished),
    }
}

/// Relies on rand::random::<u32>: a value from the thread-local generator.
#[verifier::external_body]
fn draw_u32() -> u32 {
    rand::random::<u32>()
}

/// The fraction in [0, 1), in units of `RANDOM_ONE`, that a uniformly drawn
/// 32-bit value stands for: its top 24 bits.
pub fn random_fraction(v: u32) -> (r: u32)
    ensures
        r == v / 256,
        r < RANDOM_ONE,
{
    v / 256
}

/// What a script may read and request while it is stepped: the tick counter,
/// the target, the spawn budget and the bullets granted this tick.
pub struct BulletMLViewerRunnerData<S> {
    pub turn: u64,
    pub target: Position,
    pub budget: SpawnBudget,
    pub pending: Vec<Entry<S>>,
}

impl<S> BulletMLViewerRunnerData<S> {
    /// Ticks completed so far.
    pub fn get_turn(&self) -> (r: u64)
        ensures
            r == self.turn,
    {
        self.turn
    }

    /// Difficulty rank, in units of `RANK_ONE`.
    pub fn get_rank(&self) -> (r: u32)
        ensures
            r == RANK,
    {
        RANK
    }

    /// Speed used where a script gives none: one world unit per tick.
    pub fn get_default_speed() -> (r: i64)
        ensures
            r == SPEED_ONE,
    {
        SPEED_ONE
    }

    /// A random fraction in [0, 1), in units of `RANDOM_ONE`.
    pub fn get_rand(&mut self) -> (r: u32)
        ensures
            r < RANDOM_ONE,
            final(self).turn == old(self).turn,
            final(self).target == old(self).target,
            final(self).budget == old(self).budget,
            final(self).pending@ == old(self).pending@,
    {
        random_fraction(draw_u32())
    }

    /// Requests a plain bullet at `position`; true when the budget granted it.
    pub fn create_simple_bullet(&mut self, direction: i64, speed: i64, position: &Position) -> (r: bool)
        ensures
            r == (old(self).budget.available > 0),
            final(self).budget == after_request(old(self).budget),
            final(self).pending@ == if r {
                old(self).pending@.push(spawned(*position, direction, speed, BulletType::Simple))
            } else {
                old(self).pending@
            },
            final(self).pending@.len() + final(self).budget.available == old(self).pending@.len()
                + old(self).budget.available,
            final(self).turn == old(self).turn,
            final(self).target == old(self).target,
    {
        let granted = self.budget.request_spawn();
        if granted {
            self.pending.push(
                Entry {
                    bullet: Bullet { direction, speed, vanished: false },
                    position: *position,
                    kind: BulletType::Simple,
                },
            );
        }
        granted
    }

    /// Requests a bullet at `position` driven by `script`; true when the budget
    /// granted it, else the script is dropped.
    pub fn create_bullet(&mut self, script: S, direction: i64, speed: i64, position: &Position) -> (r: bool)
        ensures
            r == (old(self).budget.available > 0),
            final(self).budget == after_request(old(self).budget),
            final(self).pending@ == if r {
                old(self).pending@.push(
                    spawned(*position, direction, speed, BulletType::WithRunner(script)),
                )
            } else {
                old(self).pending@
            },
            final(self).pending@.len() + final(self).budget.available == old(self).pending@.len()
                + old(self).budget.available,
            final(self).turn == old(self).turn,
            final(self).target == old(self).target,
    {
        let granted = self.budget.request_spawn();
        if granted {
            self.pending.push(
                Entry {
                    bullet: Bullet { direction, speed, vanished: false },
                    position: *position,
                    kind: BulletType::WithRunner(script),
                },
            );
        }
        granted
    }
}

/// The simulation: the live bullets, the script context and the bounds.
pub struct World<S> {
    pub entries: Vec<Entry<S>>,
    pub data: BulletMLViewerRunnerData<S>,
    pub bounds: Bounds,
}

impl<S> World<S> {
    /// Live bullets, bullets granted this tick and free slots together
    /// never exceed the capacity, so neither do the live bullets.
    pub open spec fn wf(&self) -> bool {
        &&& self.data.budget.wf()
        &&& self.entries@.len() + self.data.pending@.len() + self.data.budget.available
            <= self.data.budget.capacity
    }

    /// An empty world at turn 0 that holds at most `capacity` bullets.
    pub fn new(capacity: usize, bounds: Bounds, target: Position) -> (r: World<S>)
        ensures
            r.wf(),
            r.entries@.len() == 0,
            r.data.turn == 0,
            r.data.target == target,
            r.data.budget.capacity == capacity,
            r.data.budget.available == capacity,
            r.data.pending@.len() == 0,
            r.bounds == bounds,
    {
        World {
            entries: Vec::new(),
            data: BulletMLViewerRunnerData {
                turn: 0,
                target,
                budget: SpawnBudget::new(capacity),
                pending: Vec::new(),
            },
            bounds,
        }
    }

    /// Places a bullet directly, outside any tick, if the budget has a free
    /// slot; true when it was placed.
    pub fn seed(&mut self, bullet: Bullet, position: Position, kind: BulletType<S>) -> (r: bool)
        requires
            old(self).wf(),
        ensures
            final(self).wf(),
            r == (old(self).data.budget.available > 0),
            final(self).entries@ == if r {
                old(self).entries@.push(Entry { bullet, position, kind })
            } else {
                old(self).entries@
            },
            final(self).data.budget == after_request(old(self).data.budget),
            final(self).data.turn == old(self).data.turn,
            final(self).data.target == old(self).data.target,
            final(self).data.pending@ == old(self).data.pending@,
            final(self).bounds == old(self).bounds,
    {
        let granted = self.data.budget.request_spawn();
        if granted {
            self.entries.push(Entry { bullet, position, kind });
        }
        granted
    }

    /// Places the emitter that runs a pattern from `position`, if the budget
    /// has a free slot: a hidden bullet at rest, facing the current target,
    /// driven by `script`. True when it was placed.
    pub fn seed_emitter(&mut self, position: Position, script: S) -> (r: bool)
        requires
            old(self).wf(),
        ensures
            final(self).wf(),
            r == (old(self).data.budget.available > 0),
            r ==> final(self).entries@.len() == old(self).entries@.len() + 1,
            r ==> final(self).entries@.drop_last() == old(self).entries@,
            r ==> ({
                let e = final(self).entries@.last();
                &&& e.position == position
                &&& e.kind == BulletType::WithRunner(script)
                &&& e.bullet.speed == 0
                &&& e.bullet.vanished
                &&& is_bearing(position, old(self).data.target, e.bullet.direction as int)
            }),
            !r ==> final(self).entries@ == old(self).entries@,
            final(self).data.budget == after_request(old(self).data.budget),
            final(self).data.turn == old(self).data.turn,
            final(self).data.target == old(self).data.target,
            final(self).data.pending@ == old(self).data.pending@,
            final(self).bounds == old(self).bounds,
    {
        let direction = get_direction(&position, &self.data.target);
        let bullet = Bullet { direction, speed: 0, vanished: true };
        let r = self.seed(bullet, position, BulletType::WithRunner(script));
        if r {
            assert(self.entries@.drop_last() =~= old(self).entries@);
        }
        r
    }

    /// Moves the target that scripts aim at.
    pub fn set_target(&mut self, target: Position)
        requires
            old(self).wf(),
        ensures
            final(self).wf(),
            final(self).data.target == target,
            final(self).data.turn == old(self).data.turn,
            final(self).data.budget == old(self).data.budget,
            final(self).data.pending@ == old(self).data.pending@,
            final(self).entries@ == old(self).entries@,
            final(self).bounds == old(self).bounds,
    {
        self.data.target = target;
    }

    /// First phase of a tick: every bullet moves once, before any script runs.
    pub fn begin_tick(&mut self)
        requires
            old(self).wf(),
        ensures
            final(self).wf(),
            final(self).entries@.len() == old(self).entries@.len(),
            forall|i: int|
                0 <= i < old(self).entries@.len() ==> #[trigger] final(self).entries@[i]
                    == moved_entry(old(self).entries@[i]),
            final(self).data.turn == old(self).data.turn,
            final(self).data.target == old(self).data.target,
            final(self).data.budget == old(self).data.budget,
            final(self).data.pending@ == old(self).data.pending@,
            final(self).bounds == old(self).bounds,
    {
        let ghost before = self.entries@;
        let n = self.entries.len();
        let mut i: usize = 0;
        while i < n
            invariant
                n == before.len(),
                i <= n,
                self.entries@.len() == n,
                forall|j: int| 0 <= j < i ==> #[trigger] self.entries@[j] == moved_entry(before[j]),
                forall|j: int| i <= j < n ==> #[trigger] self.entries@[j] == before[j],
                self.data.turn == old(self).data.turn,
                self.data.target == old(self).data.target,
                self.data.budget == old(self).data.budget,
                self.data.pending@ == old(self).data.pending@,
                self.bounds == old(self).bounds,
            decreases n - i,
        {
            let bullet = self.entries[i].bullet;
            let mut position = self.entries[i].position;
            bullet.update(&mut position);
            self.entries[i].position = position;
            i = i + 1;
        }
    }

    /// Removes the entries that the lifecycle rule marks; `terminal[i]` tells
    /// whether the script of entry `i` has finished.
    pub fn despawn_finished(&mut self, terminal: &Vec<bool>)
        requires
            old(self).wf(),
            terminal@.len() == old(self).entries@.len(),
        ensures
            final(self).wf(),
            final(self).entries@ == survivors(old(self).entries@, terminal@, old(self).bounds),
            final(self).data.turn == old(self).data.turn,
            final(self).data.target == old(self).data.target,
            final(self).data.budget == old(self).data.budget,
            final(self).data.pending@ == old(self).data.pending@,
            final(self).bounds == old(self).bounds,
    {
        let ghost before = self.entries@;
        let n = terminal.len();
        let mut i: usize = 0;
        let mut k: usize = 0;
        while k < n
            invariant
                n == before.len() == terminal@.len(),
                i <= k <= n,
                self.entries@ == survivors(before.take(k as int), terminal@, self.bounds)
                    + before.skip(k as int),
                i == survivors(before.take(k as int), terminal@, self.bounds).len(),
                self.data.turn == old(self).data.turn,
                self.data.target == old(self).data.target,
                self.data.budget == old(self).data.budget,
                self.data.pending@ == old(self).data.pending@,
                self.bounds == old(self).bounds,
            decreases n - k,
        {
            let ghost kept = survivors(before.take(k as int), terminal@, self.bounds);
            assert(before.take(k + 1).drop_last() =~= before.take(k as int));
            assert(self.entries@[i as int] == before[k as int]);
            let gone = should_despawn(&self.entries[i], terminal[k], &self.bounds);
            if gone {
                self.entries.remove(i);
                assert(self.entries@ =~= kept + before.skip(k + 1));
            } else {
                assert(self.entries@ =~= kept.push(before[k as int]) + before.skip(k + 1));
                i = i + 1;
            }
            k = k + 1;
        }
        assert(before.take(n as int) =~= before);
        proof {
            lemma_survivors_len(before, terminal@, self.bounds);
        }
    }

    /// Last phase of a tick, after every script has been stepped once:
    /// counts the tick, removes finished bullets, adds those granted during
    /// the tick, and recounts the budget.
    pub fn end_tick(&mut self, terminal: &Vec<bool>)
        requires
            old(self).wf(),
            terminal@.len() == old(self).entries@.len(),
        ensures
            final(self).wf(),
            final(self).entries@.len() <= final(self).data.budget.capacity,
            final(self).data.turn == if old(self).data.turn < u64::MAX {
                old(self).data.turn + 1
            } else {
                old(self).data.turn as int
            },
            final(self).entries@ == survivors(old(self).entries@, terminal@, old(self).bounds)
                + old(self).data.pending@,
            final(self).data.pending@.len() == 0,
            final(self).data.budget.capacity == old(self).data.budget.capacity,
            final(self).data.budget.available == free_slots(
                old(self).data.budget.capacity as int,
                final(self).entries@.len() as int,
            ),
            final(self).data.target == old(self).data.target,
            final(self).bounds == old(self).bounds,
    {
        self.data.turn = self.data.turn.saturating_add(1);
        self.despawn_finished(terminal);
        self.entries.append(&mut self.data.pending);
        let live = self.entries.len();
        self.data.budget.recompute(live);
    }
}

/// A bullet at rest keeps its place through the motion phase of every tick,
/// and a plain one inside the bounds is never reaped.
pub proof fn lemma_resting_entry_stays<S>(e: Entry<S>, t: bool, b: Bounds, n: nat)
    requires
        e.bullet.speed == 0,
    ensures
        moved_entry(e) == e,
        moved_n(e.bullet, e.position, n) == e.position,
        e.kind is Simple && !is_outside(e.position, b) ==> !removable(e, t, b),
{
    lemma_resting_bullet_stays(e.bullet, e.position, 1);
    lemma_resting_bullet_stays(e.bullet, e.position, n);
    assert(moved_n(e.bullet, e.position, 1) == moved(e.bullet, e.position));
}

/// Reaping never adds entries.
pub proof fn lemma_survivors_len<S>(s: Seq<Entry<S>>, t: Seq<bool>, b: Bounds)
    ensures
        survivors(s, t, b).len() <= s.len(),
    decreases s.len(),
{
    if s.len() > 0 {
        lemma_survivors_len(s.drop_last(), t, b);
    }
}

/// A scripted bullet outside the bounds stays while its script runs, and is
/// removed by the first lifecycle pass after the script has finished.
pub proof fn lemma_scripted_bullet_waits_for_script<S>(e: Entry<S>, b: Bounds)
    requires
        e.kind is WithRunner,
        is_outside(e.position, b),
    ensures
        survivors(seq![e], seq![false], b) == seq![e],
        survivors(seq![e], seq![true], b) == Seq::<Entry<S>>::empty(),
{
    let one = seq![e];
    assert(one.drop_last() =~= Seq::<Entry<S>>::empty());
    assert(one.last() == e);
    assert(survivors(Seq::<Entry<S>>::empty(), seq![false], b) == Seq::<Entry<S>>::empty());
    assert(survivors(Seq::<Entry<S>>::empty(), seq![true], b) == Seq::<Entry<S>>::empty());
    assert(seq![false][0] == false);
    assert(seq![true][0] == true);
    assert(!removable(e, false, b));
    assert(removable(e, true, b));
    assert(Seq::<Entry<S>>::empty().push(e) =~= one);
}

} // verus!
