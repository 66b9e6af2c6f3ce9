use platformer::platform::Platform;
use platformer::render::{Color, DrawCommand, Rect};
use platformer::units::{FLOOR_Y, MOVE_STEP, UNITS_PER_PIXEL};
use platformer::world::{InputSnapshot, MainState};

fn pixels(units: i64) -> f64 {
    units as f64 / UNITS_PER_PIXEL as f64
}

fn pixel_rect(rect: Rect) -> (f64, f64, f64, f64) {
    (pixels(rect.x), pixels(rect.y), pixels(rect.width), pixels(rect.height))
}

fn keys(left: bool, right: bool, jump: bool) -> InputSnapshot {
    InputSnapshot { left, right, jump }
}

#[test]
fn new_world_holds_one_avatar_and_three_platforms() {
    let state = MainState::new();
    assert_eq!(state.platforms().len(), 3);
    assert_eq!(pixel_rect(state.platforms()[0].bounds()), (100.0, 590.0, 200.0, 10.0));
    assert_eq!(pixel_rect(state.platforms()[1].bounds()), (400.0, 490.0, 200.0, 10.0));
    assert_eq!(pixel_rect(state.platforms()[2].bounds()), (200.0, 390.0, 200.0, 10.0));
    assert_eq!(pixel_rect(state.player().bounds()), (100.0, 540.0, 50.0, 60.0));
    assert_eq!(state.player().velocity_y(), 0);
    assert!(state.player().on_ground());
}

#[test]
fn both_directions_held_leave_x_unchanged() {
    let mut state = MainState::new();
    state.update(keys(true, true, false));
    assert_eq!(pixels(state.player().x()), 100.0);
    state.update(keys(true, false, false));
    state.update(keys(true, true, true));
    assert_eq!(pixels(state.player().x()), 95.0);
    for _ in 0..50 {
        let before = state.player().x();
        state.update(keys(true, true, false));
        assert_eq!(state.player().x(), before);
    }
}

#[test]
fn left_and_right_move_five_pixels_a_frame() {
    let mut state = MainState::new();
    state.update(keys(true, false, false));
    assert_eq!(pixels(state.player().x()), 95.0);
    state.update(keys(false, true, false));
    state.update(keys(false, true, false));
    assert_eq!(pixels(state.player().x()), 105.0);
    assert_eq!(state.player().x(), 2 * 100 + MOVE_STEP);
    assert_eq!(pixels(state.player().y()), 540.0);
    assert!(state.player().on_ground());
}

#[test]
fn avatar_walks_off_the_window_unhindered() {
    let mut state = MainState::new();
    for _ in 0..1000 {
        state.update(keys(true, false, false));
    }
    assert_eq!(pixels(state.player().x()), 100.0 - 5000.0);
    for _ in 0..3000 {
        state.update(keys(false, true, false));
    }
    assert_eq!(pixels(state.player().x()), 10100.0);
}

#[test]
fn idle_frame_changes_nothing() {
    let mut state = MainState::new();
    for _ in 0..5 {
        state.update(keys(false, false, false));
    }
    assert_eq!(pixel_rect(state.player().bounds()), (100.0, 540.0, 50.0, 60.0));
    assert_eq!(state.player().velocity_y(), 0);
    assert!(state.player().on_ground());
}

#[test]
fn jump_key_jumps_and_the_frame_moves() {
    let mut state = MainState::new();
    state.update(keys(false, false, true));
    assert_eq!(pixels(state.player().velocity_y()), -9.5);
    assert_eq!(pixels(state.player().y()), 530.5);
    assert!(!state.player().on_ground());
    assert_eq!(pixels(state.player().x()), 100.0);
}

#[test]
fn held_jump_key_jumps_once_per_landing() {
    let mut held = MainState::new();
    let mut tapped = MainState::new();
    held.update(keys(false, false, true));
    tapped.update(keys(false, false, true));
    for _ in 0..38 {
        held.update(keys(false, false, true));
        tapped.update(keys(false, false, false));
        assert_eq!(held.player().bounds(), tapped.player().bounds());
        assert_eq!(held.player().velocity_y(), tapped.player().velocity_y());
        assert!(!held.player().on_ground());
    }
    // the frame of the landing
    held.update(keys(false, false, true));
    assert!(held.player().on_ground());
    assert_eq!(held.player().y(), FLOOR_Y);
    // and the held key starts the next jump
    held.update(keys(false, false, true));
    assert!(!held.player().on_ground());
    assert_eq!(pixels(held.player().y()), 530.5);
}

#[test]
fn steps_in_the_air_move_the_avatar_too() {
    let mut state = MainState::new();
    state.update(keys(false, true, true));
    state.update(keys(false, true, false));
    assert_eq!(pixels(state.player().x()), 110.0);
    assert_eq!(pixels(state.player().y()), 521.5);
    assert_eq!(pixels(state.player().velocity_y()), -9.0);
}

#[test]
fn avatar_stays_on_or_above_the_floor_in_play() {
    let mut state = MainState::new();
    for frame in 0..1000u32 {
        let input = keys(frame % 3 == 0, frame % 5 < 2, frame % 11 < 4);
        state.update(input);
        assert!(pixels(state.player().y()) <= 540.0);
        assert_eq!(state.platforms().len(), 3);
        assert_eq!(pixel_rect(state.player().bounds()).2, 50.0);
        assert_eq!(pixel_rect(state.player().bounds()).3, 60.0);
    }
    assert_eq!(pixel_rect(state.platforms()[2].bounds()), (200.0, 390.0, 200.0, 10.0));
}

#[test]
fn frame_is_painted_in_order() {
    let state = MainState::new();
    let black = Color { r: 0, g: 0, b: 0 };
    let expected = vec![
        DrawCommand::Clear(Color { r: 255, g: 255, b: 255 }),
        DrawCommand::FillRect(Rect { x: 200, y: 1080, width: 100, height: 120 }, Color { r: 0, g: 0, b: 255 }),
        DrawCommand::FillRect(Rect { x: 200, y: 1180, width: 400, height: 20 }, black),
        DrawCommand::FillRect(Rect { x: 800, y: 980, width: 400, height: 20 }, black),
        DrawCommand::FillRect(Rect { x: 400, y: 780, width: 400, height: 20 }, black),
        DrawCommand::Present,
    ];
    assert_eq!(state.draw(), expected);
}

#[test]
fn painting_follows_the_avatar() {
    let mut state = MainState::new();
    state.update(keys(true, false, true));
    let commands = state.draw();
    assert_eq!(commands.len(), 6);
    assert_eq!(commands[1], state.player().draw());
    assert_eq!(
        commands[1],
        DrawCommand::FillRect(Rect { x: 190, y: 1061, width: 100, height: 120 }, Color::from_rgb(0, 0, 255))
    );
    assert_eq!(commands[2], state.platforms()[0].draw());
    assert_eq!(commands[5], DrawCommand::Present);
    // painting changes nothing
    assert_eq!(state.draw(), commands);
}

#[test]
fn platform_is_painted_black() {
    let platform = Platform::new(20, -40, 60, 80);
    assert_eq!(platform.bounds(), Rect::new(20, -40, 60, 80));
    assert_eq!(
        platform.draw(),
        DrawCommand::FillRect(Rect { x: 20, y: -40, width: 60, height: 80 }, Color { r: 0, g: 0, b: 0 })
    );
}

#[test]
fn color_and_rect_keep_their_parts() {
    let color = Color::from_rgb(1, 2, 3);
    assert_eq!((color.r, color.g, color.b), (1, 2, 3));
    let rect = Rect::new(4, 5, 6, 7);
    assert_eq!((rect.x, rect.y, rect.width, rect.height), (4, 5, 6, 7));
}
