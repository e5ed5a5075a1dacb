use flappy::player::Player;

#[test]
fn gravity_accelerates_and_moves() {
    let mut p = Player::new(5, 250);
    p.gravity_and_move();
    assert_eq!(p.velocity, 1);
    assert_eq!(p.y, 251);
    assert_eq!(p.x, 6);
    assert_eq!(p.frame, 1);
}

#[test]
fn velocity_caps_at_terminal_velocity() {
    // Start at y = 25.0, no input, gravity 0.1/tick, cap 2.0.
    // After 20 ticks the velocity is min(20 * 0.1, 2.0) = 2.0 and y is the
    // sum of the velocity sequence: 25.0 + (0.1 + 0.2 + ... + 2.0) = 46.0.
    let mut p = Player::new(5, 250);
    for _ in 0..20 {
        p.gravity_and_move();
    }
    assert_eq!(p.velocity, 20);
    assert_eq!(p.y, 460);
    assert_eq!(p.x, 25);
    // Further ticks leave the velocity at the cap; it never decreases.
    p.gravity_and_move();
    assert_eq!(p.velocity, 20);
    assert_eq!(p.y, 480);
}

#[test]
fn y_clamps_at_top_boundary() {
    let mut p = Player::new(0, 0);
    p.flap();
    p.gravity_and_move();
    assert_eq!(p.y, 0);
    p.gravity_and_move();
    assert_eq!(p.y, 0);
}

#[test]
fn flap_overrides_velocity() {
    let mut p = Player::new(5, 250);
    for _ in 0..20 {
        p.gravity_and_move();
    }
    assert_eq!(p.velocity, 20);
    p.flap();
    assert_eq!(p.velocity, -20);
    assert_eq!(p.y, 460);
    assert_eq!(p.x, 25);
}

#[test]
fn flap_does_not_stack() {
    let mut p = Player::new(5, 250);
    p.flap();
    p.flap();
    assert_eq!(p.velocity, -20);
}

#[test]
fn animation_frame_wraps() {
    let mut p = Player::new(5, 250);
    for _ in 0..6 {
        p.gravity_and_move();
    }
    assert_eq!(p.frame, 0);
    p.gravity_and_move();
    assert_eq!(p.frame, 1);
}
