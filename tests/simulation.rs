use bullet_sim::budget::SpawnBudget;
use bullet_sim::bullet::Bullet;
use bullet_sim::clock::FrameClock;
use bullet_sim::geometry::{
    cosine_at, cosine_of_degree, get_direction, saturate, sine_at, sine_of_degree, unit_vector,
    Position, POSITION_ONE, SINE_ONE, SPEED_ONE, UNIT_ONE,
};
use bullet_sim::world::{
    outside_check, random_fraction, should_despawn, BulletMLViewerRunnerData, Bounds, BulletType, Entry, World, RANDOM_ONE, RANK,
};

fn screen() -> Bounds {
    Bounds {
        min_x: -320 * POSITION_ONE,
        max_x: 320 * POSITION_ONE,
        min_y: -240 * POSITION_ONE,
        max_y: 240 * POSITION_ONE,
    }
}

fn at(x: i64, y: i64) -> Position {
    Position { x: x * POSITION_ONE, y: y * POSITION_ONE }
}

fn run_ticks(world: &mut World<u32>, n: usize, terminal: bool) {
    for _ in 0..n {
        world.begin_tick();
        let flags = vec![terminal; world.entries.len()];
        world.end_tick(&flags);
    }
}

#[test]
fn resting_plain_bullet_never_moves() {
    let mut world: World<u32> = World::new(10, screen(), at(0, -100));
    world.seed(Bullet::new(123_456, 0), at(5, 7), BulletType::Simple);
    run_ticks(&mut world, 500, true);
    assert_eq!(world.entries.len(), 1);
    assert_eq!(world.entries[0].position, at(5, 7));
}

#[test]
fn bearing_of_a_point_to_itself_is_repeatable() {
    let p = at(3, -4);
    let a = get_direction(&p, &p);
    let b = get_direction(&p, &p);
    assert_eq!(a, b);
    assert_eq!(a, 0);
}

#[test]
fn bearings_run_clockwise_from_up() {
    let o = at(0, 0);
    assert_eq!(get_direction(&o, &at(0, 10)), 0);
    assert_eq!(get_direction(&o, &at(10, 0)), 90_000);
    assert_eq!(get_direction(&o, &at(0, -10)), 180_000);
    assert_eq!(get_direction(&o, &at(-10, 0)), -90_000);
    assert_eq!(get_direction(&o, &at(10, 10)), 45_000);
    assert_eq!(get_direction(&o, &at(-10, 10)), -45_000);
    assert_eq!(get_direction(&o, &at(-10, -10)), -135_000);
    assert_eq!(get_direction(&o, &at(0, -1)), 180_000);
    assert_eq!(get_direction(&at(0, 100), &at(0, -100)), 180_000);
}

#[test]
fn bearings_resolve_below_a_degree() {
    let o = at(0, 0);
    // atan2(1, 2) is 26.565 degrees.
    let r = get_direction(&o, &at(1, 2));
    assert!((r - 26_565).abs() <= 20, "{}", r);
    let mirrored = get_direction(&o, &at(-1, 2));
    assert_eq!(mirrored, -r);
    // atan2(3, -7) is 156.801 degrees.
    let r = get_direction(&o, &at(3, -7));
    assert!((r - 156_801).abs() <= 20, "{}", r);
}

#[test]
fn aim_direction_points_at_target() {
    let b = Bullet::new(0, SPEED_ONE);
    assert_eq!(b.aim_direction(&at(1, 1), &at(11, 1)), 90_000);
}

#[test]
fn changed_direction_is_read_back_exactly() {
    let mut b = Bullet::new(0, SPEED_ONE);
    b.change_direction(725_500);
    assert_eq!(b.bullet_direction(), 725_500);
    b.change_direction(-90_000);
    assert_eq!(b.bullet_direction(), -90_000);
}

#[test]
fn speed_and_vanish_updates() {
    let mut b = Bullet::new(10, 20);
    b.change_speed(-3);
    assert_eq!(b.bullet_speed(), -3);
    assert!(!b.vanished);
    b.vanish();
    assert!(b.vanished);
    assert_eq!(b.bullet_direction(), 10);
}

#[test]
fn spawns_beyond_capacity_are_dropped() {
    let mut world: World<u32> = World::new(1, screen(), at(0, 0));
    world.end_tick(&vec![]);
    assert_eq!(world.data.budget.available, 1);
    let parent = at(0, 0);
    assert!(world.data.create_simple_bullet(0, SPEED_ONE, &parent));
    assert!(!world.data.create_bullet(7, 0, SPEED_ONE, &parent));
    assert_eq!(world.data.pending.len(), 1);
    world.end_tick(&vec![]);
    assert_eq!(world.entries.len(), 1);
    assert_eq!(world.data.budget.available, 0);
    assert!(matches!(world.entries[0].kind, BulletType::Simple));
}

#[test]
fn budget_counts_requests() {
    let mut b = SpawnBudget::new(2);
    b.recompute(1);
    assert_eq!(b.available, 1);
    assert!(b.request_spawn());
    assert!(!b.request_spawn());
    b.recompute(5);
    assert_eq!(b.available, 0);
    b.recompute(0);
    assert_eq!(b.available, 2);
}

#[test]
fn scripted_bullet_out_of_bounds_waits_for_its_script() {
    let mut world: World<u32> = World::new(10, screen(), at(0, 0));
    world.seed(Bullet::new(0, 0), at(0, 500), BulletType::WithRunner(1));
    world.end_tick(&vec![false]);
    assert_eq!(world.entries.len(), 1);
    world.end_tick(&vec![false]);
    assert_eq!(world.entries.len(), 1);
    world.end_tick(&vec![true]);
    assert_eq!(world.entries.len(), 0);
}

#[test]
fn upward_motion_accumulates_exactly() {
    let v: i64 = 2_500;
    let mut p = at(4, -10);
    let b = Bullet::new(0, v);
    for _ in 0..37 {
        b.update(&mut p);
    }
    assert_eq!(p.x, 4 * POSITION_ONE);
    assert_eq!(p.y, -10 * POSITION_ONE + 37 * v * UNIT_ONE);
}

#[test]
fn scripted_bullet_falls_and_is_reaped() {
    let mut world: World<u32> = World::new(10, screen(), at(0, -100));
    world.seed(Bullet::new(180_000, SPEED_ONE), at(0, 100), BulletType::WithRunner(9));
    run_ticks(&mut world, 50, false);
    assert_eq!(world.entries.len(), 1);
    assert_eq!(world.entries[0].position, at(0, 50));
    assert_eq!(world.data.turn, 50);
    run_ticks(&mut world, 290, false);
    assert_eq!(world.entries[0].position, at(0, -240));
    assert!(!outside_check(&world.entries[0].position, &world.bounds));
    run_ticks(&mut world, 1, false);
    assert!(outside_check(&world.entries[0].position, &world.bounds));
    assert_eq!(world.entries.len(), 1);
    run_ticks(&mut world, 1, true);
    assert_eq!(world.entries.len(), 0);
}

#[test]
fn plain_bullet_leaving_bounds_is_reaped() {
    let mut world: World<u32> = World::new(10, screen(), at(0, 0));
    world.seed(Bullet::new(90_000, SPEED_ONE), at(319, 0), BulletType::Simple);
    run_ticks(&mut world, 1, false);
    assert_eq!(world.entries.len(), 1);
    run_ticks(&mut world, 1, false);
    assert_eq!(world.entries.len(), 0);
}

#[test]
fn despawn_rule_cases() {
    let bounds = screen();
    let inside = Entry { bullet: Bullet::new(0, 0), position: at(0, 0), kind: BulletType::<u32>::Simple };
    assert!(!should_despawn(&inside, true, &bounds));
    let mut vanished_plain = Entry { bullet: Bullet::new(0, 0), position: at(0, 0), kind: BulletType::<u32>::Simple };
    vanished_plain.bullet.vanish();
    assert!(!should_despawn(&vanished_plain, true, &bounds));
    let mut vanished_scripted = Entry { bullet: Bullet::new(0, 0), position: at(0, 0), kind: BulletType::WithRunner(3u32) };
    vanished_scripted.bullet.vanish();
    assert!(!should_despawn(&vanished_scripted, false, &bounds));
    assert!(should_despawn(&vanished_scripted, true, &bounds));
    let outside_plain = Entry { bullet: Bullet::new(0, 0), position: at(-321, 0), kind: BulletType::<u32>::Simple };
    assert!(should_despawn(&outside_plain, false, &bounds));
}

#[test]
fn survivors_keep_their_order() {
    let mut world: World<u32> = World::new(10, screen(), at(0, 0));
    world.seed(Bullet::new(0, 0), at(1, 0), BulletType::Simple);
    world.seed(Bullet::new(0, 0), at(400, 0), BulletType::Simple);
    world.seed(Bullet::new(0, 0), at(3, 0), BulletType::WithRunner(5));
    world.seed(Bullet::new(0, 0), at(4, 0), BulletType::Simple);
    assert_eq!(world.data.budget.available, 6);
    world.end_tick(&vec![true, true, false, true]);
    let xs: Vec<i64> = world.entries.iter().map(|e| e.position.x).collect();
    assert_eq!(xs, vec![POSITION_ONE, 3 * POSITION_ONE, 4 * POSITION_ONE]);
    assert_eq!(world.data.budget.available, 7);
}

#[test]
fn table_trigonometry() {
    assert_eq!(sine_of_degree(0), 0);
    assert_eq!(sine_of_degree(30), 5_000);
    assert_eq!(sine_of_degree(90), SINE_ONE);
    assert_eq!(sine_of_degree(150), 5_000);
    assert_eq!(sine_of_degree(210), -5_000);
    assert_eq!(sine_of_degree(330), -5_000);
    assert_eq!(cosine_of_degree(60), 5_000);
    assert_eq!(cosine_of_degree(180), -SINE_ONE);
    assert_eq!(unit_vector(-90_000), (-UNIT_ONE, 0));
    assert_eq!(unit_vector(360_000 + 45_400), (7_119_800, 7_021_400));
    assert_eq!(unit_vector(89_600), (9_999_200, 70_000));
    assert_eq!(unit_vector(30_000), (5_000_000, 8_660_000));
    assert_eq!(sine_at(500), 87_500);
    assert_eq!(cosine_at(0), UNIT_ONE);
}

#[test]
fn motion_saturates_at_range() {
    let mut p = Position { x: i64::MAX - 5, y: 0 };
    Bullet::new(90_000, SPEED_ONE).update(&mut p);
    assert_eq!(p.x, i64::MAX);
    assert_eq!(saturate(i128::MIN), i64::MIN);
    assert_eq!(saturate(-42), -42);
}

#[test]
fn context_constants_and_random() {
    let mut world: World<u32> = World::new(4, screen(), at(0, 0));
    assert_eq!(world.data.get_rank(), RANK);
    assert_eq!(BulletMLViewerRunnerData::<u32>::get_default_speed(), SPEED_ONE);
    for _ in 0..100 {
        assert!(world.data.get_rand() < RANDOM_ONE);
    }
    assert_eq!(random_fraction(0), 0);
    assert_eq!(random_fraction(u32::MAX), RANDOM_ONE - 1);
    assert_eq!(random_fraction(0x1234_5678), 0x12_3456);
    world.set_target(at(9, 9));
    assert_eq!(world.data.target, at(9, 9));
    assert_eq!(world.data.get_turn(), 0);
    world.end_tick(&vec![]);
    assert_eq!(world.data.get_turn(), 1);
}

#[test]
fn seeding_respects_capacity() {
    let mut world: World<u32> = World::new(2, screen(), at(0, -100));
    assert!(world.seed(Bullet::new(0, 0), at(1, 1), BulletType::Simple));
    assert!(world.seed_emitter(at(0, 100), 4));
    assert!(!world.seed(Bullet::new(0, 0), at(2, 2), BulletType::Simple));
    assert!(!world.seed_emitter(at(0, 50), 5));
    assert_eq!(world.entries.len(), 2);
    assert_eq!(world.data.budget.available, 0);
    let emitter = &world.entries[1];
    assert_eq!(emitter.bullet, Bullet { direction: 180_000, speed: 0, vanished: true });
    assert!(matches!(emitter.kind, BulletType::WithRunner(4)));
    assert!(!world.data.create_simple_bullet(0, SPEED_ONE, &at(0, 0)));
    world.end_tick(&vec![true, false]);
    assert_eq!(world.entries.len(), 2);
    assert_eq!(world.data.budget.available, 0);
}

#[test]
fn turn_saturates() {
    let mut world: World<u32> = World::new(4, screen(), at(0, 0));
    world.data.turn = u64::MAX;
    world.end_tick(&vec![]);
    assert_eq!(world.data.turn, u64::MAX);
}

#[test]
fn spawned_bullets_start_at_parent_next_tick() {
    let mut world: World<u32> = World::new(5, screen(), at(0, 0));
    world.seed(Bullet::new(0, SPEED_ONE), at(0, 0), BulletType::WithRunner(1));
    world.begin_tick();
    let parent = world.entries[0].position;
    assert!(world.data.create_bullet(2, 90_000, 2 * SPEED_ONE, &parent));
    assert_eq!(world.entries.len(), 1);
    world.end_tick(&vec![false]);
    assert_eq!(world.entries.len(), 2);
    assert_eq!(world.entries[1].position, at(0, 1));
    assert_eq!(world.entries[1].bullet, Bullet::new(90_000, 2 * SPEED_ONE));
    assert!(matches!(world.entries[1].kind, BulletType::WithRunner(2)));
    assert_eq!(world.data.budget.available, 3);
}

#[test]
fn clock_drains_whole_steps() {
    let mut c = FrameClock::new(16_666_667);
    assert_eq!(c.advance(10_000_000), 0);
    assert_eq!(c.advance(10_000_000), 1);
    assert_eq!(c.accumulated, 3_333_333);
    assert_eq!(c.advance(50_000_000), 3);
    assert_eq!(c.accumulated, 3_333_332);
    let mut unit = FrameClock::new(1);
    assert_eq!(unit.advance(u64::MAX), u64::MAX);
}
