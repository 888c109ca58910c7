use meowdy::animation::AnimationTag;
use meowdy::animation::FrameCounter;
use meowdy::animation::FRAMES_PER_STEP;
use meowdy::animation::WALK_PERIOD;
use meowdy::entity::Entity;
use meowdy::entity::SpriteState;
use meowdy::fixed::FixedScalar;
use meowdy::fixed::FRAC_ONE;
use meowdy::frame::AxisTri;
use meowdy::frame::GameState;
use meowdy::space::world_to_screen;
use meowdy::space::ScreenVector;
use meowdy::space::WorldVector;
use meowdy::space::VIEWPORT_HEIGHT;
use meowdy::space::VIEWPORT_WIDTH;

fn world(x_raw: i32, y_raw: i32) -> WorldVector {
    WorldVector {
        x: FixedScalar::from_raw(x_raw),
        y: FixedScalar::from_raw(y_raw),
    }
}

fn walking_tag() -> AnimationTag {
    AnimationTag::new(vec![0, 1, 2, 3, 4, 5, 6, 7])
}

#[test]
fn fixed_scalar_arithmetic_is_exact() {
    let a = FixedScalar::from_int(3);
    let b = FixedScalar::from_int(-5);
    assert_eq!(a.raw, 3 * FRAC_ONE);
    assert_eq!(b.raw, -5 * FRAC_ONE);
    assert_eq!(a.add(b).raw, -2 * FRAC_ONE);
    assert_eq!(a.sub(b).raw, 8 * FRAC_ONE);
    assert_eq!(b.scale(4).raw, -20 * FRAC_ONE);
}

#[test]
fn world_vector_arithmetic_is_componentwise() {
    let a = world(3 * FRAC_ONE, -FRAC_ONE);
    let b = world(FRAC_ONE, FRAC_ONE);
    assert_eq!(a.add(b), world(4 * FRAC_ONE, 0));
    assert_eq!(a.sub(b), world(2 * FRAC_ONE, -2 * FRAC_ONE));
    assert_eq!(a.scale(-2), world(-6 * FRAC_ONE, 2 * FRAC_ONE));
}

#[test]
fn trunc_of_whole_units_is_exact() {
    assert_eq!(FixedScalar::from_int(7).trunc(), 7);
    assert_eq!(FixedScalar::from_int(-7).trunc(), -7);
    assert_eq!(FixedScalar::from_raw(0).trunc(), 0);
}

#[test]
fn trunc_rounds_toward_zero() {
    // 1945 raw units is about 1.9; truncation must give 1 and -1,
    // not the floor values 1 and -2.
    let positive = FixedScalar::from_raw(1945);
    let negative = FixedScalar::from_raw(-1945);
    assert_eq!(positive.trunc(), 1);
    assert_eq!(negative.trunc(), -1);
}

#[test]
fn projection_truncates_toward_zero() {
    // A world-to-camera delta of about (1.9, -1.9) lands one pixel
    // right of and one pixel above the viewport center.
    let position = world(1945, -1945);
    let camera = world(0, 0);
    let screen = world_to_screen(position, camera);
    assert_eq!(screen.x, VIEWPORT_WIDTH / 2 + 1);
    assert_eq!(screen.y, VIEWPORT_HEIGHT / 2 - 1);
}

#[test]
fn projection_centers_the_camera() {
    for &(x, y) in &[(0, 0), (5 * FRAC_ONE, -3 * FRAC_ONE), (123456, -654321)] {
        let camera = world(x, y);
        let screen = world_to_screen(camera, camera);
        assert_eq!(screen.x, VIEWPORT_WIDTH / 2);
        assert_eq!(screen.y, VIEWPORT_HEIGHT / 2);
    }
}

#[test]
fn projection_is_translation_invariant() {
    let position = world(3 * FRAC_ONE + 17, -2 * FRAC_ONE - 9);
    let camera = world(-FRAC_ONE, 4 * FRAC_ONE);
    let shift = world(12345, -777);
    let plain = world_to_screen(position, camera);
    let moved = world_to_screen(
        position.add(shift),
        camera.add(shift),
    );
    assert_eq!(plain, moved);
}

#[test]
fn frame_selection_steps_through_the_clip() {
    let tag = walking_tag();
    // F = 8 frames, S = 8 ticks per frame, period 64.
    assert_eq!(tag.frame_at(0, FRAMES_PER_STEP), 0);
    assert_eq!(tag.frame_at(7, FRAMES_PER_STEP), 0);
    assert_eq!(tag.frame_at(8, FRAMES_PER_STEP), 1);
    assert_eq!(tag.frame_at(63, FRAMES_PER_STEP), 7);
}

#[test]
fn frame_selection_clamps_to_the_last_frame() {
    let tag = AnimationTag::new(vec![40, 41, 42]);
    // counter / step runs past the clip: the last frame holds.
    assert_eq!(tag.frame_at(16, 8), 42);
    assert_eq!(tag.frame_at(63, 8), 42);
    let single = AnimationTag::new(vec![9]);
    assert_eq!(single.frame_at(0, 8), 9);
    assert_eq!(single.frame_at(63, 8), 9);
}

#[test]
fn counter_wraps_to_zero_at_its_period() {
    let mut counter = FrameCounter::new(WALK_PERIOD);
    for expected in 1..WALK_PERIOD {
        counter.advance();
        assert_eq!(counter.value, expected);
    }
    counter.advance();
    assert_eq!(counter.value, 0);

    let mut short = FrameCounter::new(3);
    short.advance();
    short.advance();
    assert_eq!(short.value, 2);
    short.advance();
    assert_eq!(short.value, 0);
}

#[test]
fn new_entity_is_visible_before_any_render() {
    let entity = Entity::new(5);
    assert!(entity.sprite.visible);
    assert_eq!(entity.sprite.frame, 5);
    assert_eq!(entity.position, world(0, 0));
}

#[test]
fn render_projects_the_world_position() {
    let mut entity = Entity::new(0);
    entity.position = world(2 * FRAC_ONE, -3 * FRAC_ONE);
    let camera = world(FRAC_ONE, FRAC_ONE);
    entity.render(camera);
    assert_eq!(entity.sprite.screen_x, VIEWPORT_WIDTH / 2 + 1);
    assert_eq!(entity.sprite.screen_y, VIEWPORT_HEIGHT / 2 - 4);
    assert!(entity.sprite.visible);
}

#[test]
fn sprite_state_updates_are_independent() {
    let mut sprite = SpriteState::new(2);
    assert!(!sprite.visible);
    sprite.show();
    assert!(sprite.visible);
    sprite.set_position(ScreenVector { x: 17, y: -4 });
    assert_eq!((sprite.screen_x, sprite.screen_y), (17, -4));
    assert_eq!(sprite.frame, 2);
    sprite.set_frame(6);
    assert_eq!(sprite.frame, 6);
    assert!(sprite.visible);
    assert_eq!((sprite.screen_x, sprite.screen_y), (17, -4));
}

#[test]
fn input_moves_the_player_one_pixel_per_axis() {
    let walking = walking_tag();
    let mut state = GameState::new(&walking, 0);
    state.step(&walking, AxisTri::Plus, AxisTri::Minus);
    assert_eq!((state.player.screen_x, state.player.screen_y), (1, -1));
    state.step(&walking, AxisTri::Zero, AxisTri::Minus);
    assert_eq!((state.player.screen_x, state.player.screen_y), (1, -2));
    assert!(state.player.visible);
}

#[test]
fn one_idle_frame_keeps_the_projectile_centered() {
    let walking = walking_tag();
    let mut state = GameState::new(&walking, 0);
    state.step(&walking, AxisTri::Zero, AxisTri::Zero);
    assert_eq!(state.bullet.position, world(0, 0));
    assert_eq!(state.bullet.sprite.screen_x, VIEWPORT_WIDTH / 2);
    assert_eq!(state.bullet.sprite.screen_y, VIEWPORT_HEIGHT / 2);
}

#[test]
fn eight_idle_frames_reach_walking_frame_one() {
    let walking = walking_tag();
    let mut state = GameState::new(&walking, 0);
    assert_eq!(state.player.frame, 0);
    for _ in 0..8 {
        state.step(&walking, AxisTri::Zero, AxisTri::Zero);
    }
    assert_eq!(state.counter.value, 8);
    assert_eq!(state.player.frame, 1);
    assert_eq!(state.bullet.position, world(0, 0));
    assert_eq!((state.player.screen_x, state.player.screen_y), (0, 0));
}

#[test]
fn a_full_cycle_returns_to_the_first_frame() {
    let walking = walking_tag();
    let mut state = GameState::new(&walking, 0);
    for _ in 0..63 {
        state.step(&walking, AxisTri::Zero, AxisTri::Zero);
    }
    assert_eq!(state.counter.value, 63);
    assert_eq!(state.player.frame, 7);
    state.step(&walking, AxisTri::Zero, AxisTri::Zero);
    assert_eq!(state.counter.value, 0);
    assert_eq!(state.player.frame, 0);
}
