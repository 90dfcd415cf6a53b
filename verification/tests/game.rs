use bunnymark::game::GameState;
use bunnymark::input::{Command, InputState, KeyCode, MouseButton};
use bunnymark::render::DrawCall;
use bunnymark::units::{pixels, Point2};

const SPRITE_WIDTH: u16 = 26;
const SPRITE_HEIGHT: u16 = 37;

fn cursor() -> Point2 {
    Point2::new(pixels(640), pixels(360))
}

fn all_in_box(state: &GameState) -> bool {
    state.bunnies().iter().all(|b| {
        0 <= b.position.x
            && b.position.x <= state.max_x()
            && 0 <= b.position.y
            && b.position.y <= state.max_y()
    })
}

#[test]
fn new_game_starts_with_a_hundred_at_the_corner() {
    let state = GameState::new(SPRITE_WIDTH, SPRITE_HEIGHT);
    assert_eq!(state.bunny_count(), 100);
    assert_eq!(state.bunnies().len(), 100);
    for b in state.bunnies() {
        assert_eq!(b.position, Point2::new(0, 0));
        assert!(0 <= b.velocity.x && b.velocity.x < pixels(5));
        assert!(-163_840 <= b.velocity.y && b.velocity.y < 163_840);
    }
    assert_eq!(state.max_x(), pixels(1280 - 26));
    assert_eq!(state.max_y(), pixels(720 - 37));
    assert_eq!(
        state.input(),
        InputState { delete_held: false, add_held: false, ctrl_held: false, batched_drawing: true }
    );
    assert!(state.batched_drawing());
    assert_eq!(state.click_timer(), 0);
    assert_eq!(state.residual_nanos(), 0);
}

#[test]
fn sprite_as_large_as_the_window_leaves_a_point() {
    let state = GameState::new(1280, 720);
    assert_eq!(state.max_x(), 0);
    assert_eq!(state.max_y(), 0);
    let tiny = GameState::new(0, 0);
    assert_eq!(tiny.max_x(), pixels(1280));
    assert_eq!(tiny.max_y(), pixels(720));
}

#[test]
fn space_toggles_and_toggles_back() {
    let mut state = GameState::new(SPRITE_WIDTH, SPRITE_HEIGHT);
    let before = state.input();
    assert!(!state.key_down_event(KeyCode::Space));
    assert!(!state.batched_drawing());
    assert!(!state.key_down_event(KeyCode::Space));
    assert!(state.batched_drawing());
    assert_eq!(state.input(), before);
    assert_eq!(state.bunny_count(), 100);
}

#[test]
fn backspace_clears_whatever_the_count() {
    let mut state = GameState::new(SPRITE_WIDTH, SPRITE_HEIGHT);
    assert!(!state.key_down_event(KeyCode::Back));
    assert_eq!(state.bunny_count(), 0);
    assert!(state.batched_drawing());
    let frame = state.draw("0");
    assert_eq!(frame.calls, vec![DrawCall::Batch { instances: vec![], at: Point2::new(0, 0) }]);
    // Clearing what is empty leaves it empty.
    assert!(!state.key_down_event(KeyCode::Back));
    assert_eq!(state.bunny_count(), 0);
    state.key_down_event(KeyCode::Space);
    assert!(state.draw("0").calls.is_empty());
}

#[test]
fn escape_asks_to_quit_and_changes_nothing() {
    let mut state = GameState::new(SPRITE_WIDTH, SPRITE_HEIGHT);
    let before = state.input();
    assert!(state.key_down_event(KeyCode::Escape));
    assert_eq!(state.input(), before);
    assert_eq!(state.bunny_count(), 100);
}

#[test]
fn other_keys_do_nothing() {
    let mut state = GameState::new(SPRITE_WIDTH, SPRITE_HEIGHT);
    let before = state.input();
    assert!(!state.key_down_event(KeyCode::Other));
    state.key_up_event(KeyCode::Other);
    state.key_up_event(KeyCode::Space);
    state.key_up_event(KeyCode::Back);
    assert_eq!(state.input(), before);
    assert_eq!(state.bunny_count(), 100);
}

#[test]
fn either_control_key_sets_and_clears_the_flag() {
    let mut state = GameState::new(SPRITE_WIDTH, SPRITE_HEIGHT);
    assert!(!state.key_down_event(KeyCode::LControl));
    assert!(state.input().ctrl_held);
    state.key_up_event(KeyCode::RControl);
    assert!(!state.input().ctrl_held);
    state.key_down_event(KeyCode::RControl);
    assert!(state.input().ctrl_held);
    state.key_up_event(KeyCode::LControl);
    assert!(!state.input().ctrl_held);
}

#[test]
fn buttons_set_and_clear_their_flags() {
    let mut state = GameState::new(SPRITE_WIDTH, SPRITE_HEIGHT);
    state.mouse_button_down_event(MouseButton::Left);
    assert!(state.input().add_held);
    assert!(!state.input().delete_held);
    state.mouse_button_down_event(MouseButton::Right);
    assert!(state.input().add_held);
    assert!(state.input().delete_held);
    state.mouse_button_up_event(MouseButton::Left);
    assert!(!state.input().add_held);
    assert!(state.input().delete_held);
    state.mouse_button_up_event(MouseButton::Right);
    assert!(!state.input().delete_held);
    state.mouse_button_down_event(MouseButton::Other);
    state.mouse_button_up_event(MouseButton::Other);
    assert_eq!(state.input(), InputState::new());
}

#[test]
fn input_state_alone_reports_the_command() {
    let mut input = InputState::new();
    assert_eq!(input.key_down(KeyCode::Back), Command::Clear);
    assert_eq!(input.key_down(KeyCode::Escape), Command::Quit);
    assert_eq!(input.key_down(KeyCode::Space), Command::Nothing);
    assert_eq!(input.key_down(KeyCode::LControl), Command::Nothing);
    assert_eq!(input.key_down(KeyCode::Other), Command::Nothing);
    assert_eq!(
        input,
        InputState { delete_held: false, add_held: false, ctrl_held: true, batched_drawing: false }
    );
    input.key_up(KeyCode::LControl);
    input.button_down(MouseButton::Right);
    input.button_up(MouseButton::Left);
    assert_eq!(
        input,
        InputState { delete_held: true, add_held: false, ctrl_held: false, batched_drawing: false }
    );
}

#[test]
fn tick_with_add_held_adds_one() {
    let mut state = GameState::new(SPRITE_WIDTH, SPRITE_HEIGHT);
    state.key_down_event(KeyCode::Back);
    state.mouse_button_down_event(MouseButton::Left);
    state.tick(pixels(1280), cursor());
    assert_eq!(state.bunny_count(), 1);
    let b = state.bunnies()[0];
    // One tick after its launch at the cursor.
    assert!(pixels(640) <= b.position.x && b.position.x < pixels(645));
    assert!(pixels(360) - 163_840 <= b.position.y && b.position.y < pixels(360) + 163_840);
    assert_eq!(b.position.x - pixels(640), b.velocity.x);
    assert_eq!(b.position.y - pixels(360), b.velocity.y - 32_768);
}

#[test]
fn tick_with_add_and_control_adds_a_hundred() {
    let mut state = GameState::new(SPRITE_WIDTH, SPRITE_HEIGHT);
    state.key_down_event(KeyCode::Back);
    state.key_down_event(KeyCode::LControl);
    state.mouse_button_down_event(MouseButton::Left);
    state.tick(pixels(1280), cursor());
    assert_eq!(state.bunny_count(), 100);
    assert!(all_in_box(&state));
    for b in state.bunnies() {
        // Launched from the top edge one tick ago.
        assert!(b.position.y < 163_840);
    }
}

#[test]
fn tick_with_delete_and_control_takes_a_hundred() {
    let mut state = GameState::new(SPRITE_WIDTH, SPRITE_HEIGHT);
    state.key_down_event(KeyCode::LControl);
    state.mouse_button_down_event(MouseButton::Left);
    state.tick(pixels(1280), cursor());
    state.tick(pixels(1280), cursor());
    state.mouse_button_up_event(MouseButton::Left);
    assert_eq!(state.bunny_count(), 300);
    state.mouse_button_down_event(MouseButton::Right);
    state.tick(pixels(1280), cursor());
    assert_eq!(state.bunny_count(), 200);
    state.tick(pixels(1280), cursor());
    assert_eq!(state.bunny_count(), 100);
    state.tick(pixels(1280), cursor());
    assert_eq!(state.bunny_count(), 0);
    state.tick(pixels(1280), cursor());
    assert_eq!(state.bunny_count(), 0);
}

#[test]
fn tick_with_delete_takes_one_and_stops_at_none() {
    let mut state = GameState::new(SPRITE_WIDTH, SPRITE_HEIGHT);
    state.mouse_button_down_event(MouseButton::Right);
    for left in (0..100usize).rev() {
        state.tick(pixels(1280), cursor());
        assert_eq!(state.bunny_count(), left);
    }
    state.tick(pixels(1280), cursor());
    assert_eq!(state.bunny_count(), 0);
}

#[test]
fn update_runs_no_tick_without_time() {
    let mut state = GameState::new(SPRITE_WIDTH, SPRITE_HEIGHT);
    let before = state.bunnies().clone();
    state.mouse_button_down_event(MouseButton::Left);
    state.update(0, pixels(1280), cursor());
    assert_eq!(state.bunnies(), &before);
    state.update(16_666_666, pixels(1280), cursor());
    assert_eq!(state.bunnies(), &before);
    assert_eq!(state.residual_nanos(), 16_666_666);
}

#[test]
fn update_runs_as_many_ticks_as_are_due() {
    let mut state = GameState::new(SPRITE_WIDTH, SPRITE_HEIGHT);
    state.mouse_button_down_event(MouseButton::Left);
    state.update(40_000_000, pixels(1280), cursor());
    assert_eq!(state.bunny_count(), 102);
    assert_eq!(state.residual_nanos(), 40_000_000 - 2 * 16_666_666);
    state.update(9_999_998, pixels(1280), cursor());
    assert_eq!(state.bunny_count(), 102);
    assert_eq!(state.residual_nanos(), 16_666_666);
    state.update(1, pixels(1280), cursor());
    assert_eq!(state.bunny_count(), 103);
    assert_eq!(state.residual_nanos(), 1);
    state.update(1_000_000_000, pixels(1280), cursor());
    assert_eq!(state.bunny_count(), 163);
    assert_eq!(state.residual_nanos(), 1_000_000_001 - 60 * 16_666_666);
    assert_eq!(state.click_timer(), 0);
}

#[test]
fn update_keeps_every_bunny_in_the_box() {
    let mut state = GameState::new(SPRITE_WIDTH, SPRITE_HEIGHT);
    state.key_down_event(KeyCode::RControl);
    state.mouse_button_down_event(MouseButton::Left);
    state.update(3 * 16_666_666 + 1, pixels(1280), Point2::new(pixels(-5000), pixels(9000)));
    state.key_up_event(KeyCode::RControl);
    assert_eq!(state.bunny_count(), 400);
    for _ in 0..600 {
        state.update(16_666_667, pixels(1280), Point2::new(pixels(-5000), pixels(9000)));
        assert!(all_in_box(&state));
    }
    assert_eq!(state.bunny_count(), 1000);
    for b in state.bunnies() {
        assert!(b.velocity.x.abs() <= pixels(5));
        assert!(-(state.max_y() + pixels(10)) <= b.velocity.y);
        assert!(b.velocity.y <= state.max_y() + pixels(3));
    }
}

#[test]
fn draw_follows_the_mode() {
    let mut state = GameState::new(SPRITE_WIDTH, SPRITE_HEIGHT);
    state.update(100_000_000, pixels(1280), cursor());
    let places: Vec<Point2> = state.bunnies().iter().map(|b| b.position).collect();
    let batched = state.draw("60");
    assert_eq!(
        batched.calls,
        vec![DrawCall::Batch { instances: places.clone(), at: Point2::new(0, 0) }]
    );
    assert_eq!(batched.title, "BunnyMark - 100 bunnies - 60 FPS - batched drawing: true");
    state.key_down_event(KeyCode::Space);
    let naive = state.draw("59");
    let singles: Vec<DrawCall> = places.iter().map(|p| DrawCall::Sprite { at: *p }).collect();
    assert_eq!(naive.calls, singles);
    assert_eq!(naive.title, "BunnyMark - 100 bunnies - 59 FPS - batched drawing: false");
    // Drawing reads only.
    let again: Vec<Point2> = state.bunnies().iter().map(|b| b.position).collect();
    assert_eq!(again, places);
}

#[test]
fn update_needs_no_window_width_while_no_tick_is_due() {
    let mut state = GameState::new(SPRITE_WIDTH, SPRITE_HEIGHT);
    state.key_down_event(KeyCode::LControl);
    state.mouse_button_down_event(MouseButton::Left);
    state.update(16_666_666, 0, cursor());
    assert_eq!(state.bunny_count(), 100);
    state.update(1, 1, cursor());
    assert_eq!(state.bunny_count(), 200);
    let newest = state.bunnies()[199];
    assert!(newest.position.x < 5 * 65_536);
}
