use bracket_lib::random::RandomNumberGenerator;
use flappy::obstacle::Obstacle;
use flappy::player::Player;

#[test]
fn gap_size_at_score_zero_is_base() {
    // An obstacle spawned at score 0 has the full base gap:
    // max(2.0, 20.0 - 0) = 20.0 world units.
    let mut rng = RandomNumberGenerator::seeded(1);
    let o = Obstacle::new(80, 0, &mut rng);
    assert_eq!(o.x, 80);
    assert_eq!(o.gap_size, 200);
}

#[test]
fn gap_size_reaches_floor() {
    // At score 25 the gap size has hit the floor of 2.0 units.
    let mut rng = RandomNumberGenerator::seeded(1);
    let o = Obstacle::new(80, 25, &mut rng);
    assert_eq!(o.gap_size, 20);
}

#[test]
fn gap_size_shrinks_with_score_down_to_floor() {
    let mut rng = RandomNumberGenerator::seeded(7);
    let mut previous = i64::MAX;
    for score in 0..40u64 {
        let o = Obstacle::new(80, score, &mut rng);
        assert!(o.gap_size <= previous);
        assert!(o.gap_size >= 20);
        previous = o.gap_size;
    }
    assert_eq!(Obstacle::new(80, 17, &mut rng).gap_size, 30);
    assert_eq!(Obstacle::new(80, 18, &mut rng).gap_size, 20);
    assert_eq!(Obstacle::new(80, u64::MAX, &mut rng).gap_size, 20);
}

#[test]
fn gap_center_stays_in_configured_range() {
    let mut seen = Vec::new();
    for seed in 0..50u64 {
        let mut rng = RandomNumberGenerator::seeded(seed);
        let o = Obstacle::new(80, 0, &mut rng);
        assert!(o.gap_center >= 100);
        assert!(o.gap_center < 500);
        seen.push(o.gap_center);
    }
    // The draws really vary: a generator that handed back a constant would
    // produce one value fifty times.
    seen.dedup();
    assert!(seen.len() > 1);
}

#[test]
fn gap_center_is_deterministic_per_seed() {
    let mut rng_a = RandomNumberGenerator::seeded(99);
    let mut rng_b = RandomNumberGenerator::seeded(99);
    let a = Obstacle::new(80, 0, &mut rng_a);
    let b = Obstacle::new(80, 0, &mut rng_b);
    assert_eq!(a.gap_center, b.gap_center);
}

#[test]
fn hit_requires_horizontal_alignment() {
    let o = Obstacle { x: 10, gap_center: 250, gap_size: 200 };
    let p = Player { x: 9, y: 0, velocity: 0, frame: 0 };
    assert!(!o.hit_obstacle(&p));
    let p2 = Player { x: 10, y: 0, velocity: 0, frame: 0 };
    assert!(o.hit_obstacle(&p2));
}

#[test]
fn gap_band_edges_are_open() {
    // Gap band: center 25.0, size 20.0, so the open band is [15.0, 35.0];
    // positions exactly on the edges do not collide.
    let o = Obstacle { x: 10, gap_center: 250, gap_size: 200 };
    let at = |y: i64| Player { x: 10, y, velocity: 0, frame: 0 };
    assert!(!o.hit_obstacle(&at(150)));
    assert!(!o.hit_obstacle(&at(350)));
    assert!(!o.hit_obstacle(&at(250)));
    assert!(o.hit_obstacle(&at(149)));
    assert!(o.hit_obstacle(&at(351)));
    assert!(o.hit_obstacle(&at(0)));
}

#[test]
fn gap_bounds_reports_band_edges() {
    let o = Obstacle { x: 10, gap_center: 250, gap_size: 200 };
    assert_eq!(o.gap_bounds(), (150, 350));
}
