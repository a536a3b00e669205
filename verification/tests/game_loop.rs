use space_invaders::assets::Asset;
use space_invaders::entity::{DrawCommand, EntityView, ImageHandle};
use space_invaders::game_loop::{
    GameLoop, RENDERS_PER_SECOND, SCREEN_HEIGHT, SCREEN_WIDTH, UPDATES_PER_SECOND,
};
use space_invaders::geometry::{Point, Rect, Size};
use space_invaders::input::{Key, KeyEvent, Movement};

const PLAYER_IMAGE: ImageHandle = ImageHandle { id: 1 };
const ENEMY_IMAGE: ImageHandle = ImageHandle { id: 2 };
const UPDATE_PERIOD: u64 = 33_333_333;
const RENDER_PERIOD: u64 = 16_666_666;

fn ship_rect(x: i64, y: i64) -> Rect {
    Rect { pos: Point { x, y }, size: Size { width: 30, height: 30 } }
}

fn started(now: u64) -> GameLoop {
    GameLoop::new(PLAYER_IMAGE, ENEMY_IMAGE, now)
}

#[test]
fn rates_and_screen() {
    assert_eq!(UPDATES_PER_SECOND, 30);
    assert_eq!(RENDERS_PER_SECOND, 60);
    assert_eq!(SCREEN_WIDTH, 800);
    assert_eq!(SCREEN_HEIGHT, 600);
}

#[test]
fn new_loop_holds_a_game_with_its_images() {
    let game_loop = started(0);
    assert_eq!(game_loop.game().player().rect(), ship_rect(385, 535));
    assert_eq!(game_loop.game().player().visual(), EntityView::Image(PLAYER_IMAGE));
    assert_eq!(game_loop.game().image(Asset::Player), Some(PLAYER_IMAGE));
    assert_eq!(game_loop.game().image(Asset::Enemy), Some(ENEMY_IMAGE));
    assert!(game_loop.game().bullets().is_empty());
    assert_eq!(game_loop.game().movement(), Movement::Idle);
}

#[test]
fn new_loop_lines_up_the_formation() {
    let game_loop = started(0);
    assert_eq!(game_loop.game().enemies().len(), 9);
    assert_eq!(game_loop.game().enemies()[0].rect(), ship_rect(185, 5));
    assert_eq!(game_loop.game().enemies()[8].rect(), ship_rect(585, 5));
    assert_eq!(game_loop.game().enemies()[8].visual(), EntityView::Image(ENEMY_IMAGE));
}

#[test]
fn loop_hands_keys_to_the_game() {
    let mut game_loop = started(0);
    game_loop.handle_key(KeyEvent { key: Key::Left, is_down: true });
    assert_eq!(game_loop.game().movement(), Movement::Left);
    game_loop.handle_key(KeyEvent { key: Key::Space, is_down: true });
    assert_eq!(game_loop.game().bullets().len(), 1);
}

#[test]
fn nothing_happens_before_a_period_has_passed() {
    let mut game_loop = started(1000);
    assert_eq!(game_loop.advance(1000), None);
    assert_eq!(game_loop.advance(1000 + RENDER_PERIOD - 1), None);
    assert_eq!(game_loop.game().enemies()[0].rect(), ship_rect(185, 5));
}

#[test]
fn frame_is_drawn_at_the_render_rate() {
    let mut game_loop = started(0);
    let frame = game_loop.advance(RENDER_PERIOD);
    assert_eq!(frame.map(|commands| commands.len()), Some(10));
    assert_eq!(game_loop.game().enemies()[0].rect(), ship_rect(185, 5));
    assert_eq!(game_loop.advance(RENDER_PERIOD), None);
    assert_eq!(game_loop.advance(2 * RENDER_PERIOD - 1), None);
    assert!(game_loop.advance(2 * RENDER_PERIOD).is_some());
}

#[test]
fn game_updates_at_the_update_rate() {
    let mut game_loop = started(0);
    game_loop.advance(UPDATE_PERIOD - 1);
    assert_eq!(game_loop.game().enemies()[0].rect(), ship_rect(185, 5));
    game_loop.advance(UPDATE_PERIOD);
    assert_eq!(game_loop.game().enemies()[0].rect(), ship_rect(185, 6));
    game_loop.advance(2 * UPDATE_PERIOD - 1);
    assert_eq!(game_loop.game().enemies()[0].rect(), ship_rect(185, 6));
    game_loop.advance(2 * UPDATE_PERIOD);
    assert_eq!(game_loop.game().enemies()[0].rect(), ship_rect(185, 7));
}

#[test]
fn late_loop_catches_up_on_updates() {
    let mut game_loop = started(0);
    game_loop.handle_key(KeyEvent { key: Key::Right, is_down: true });
    let frame = game_loop.advance(100_000_000);
    assert_eq!(game_loop.game().enemies()[0].rect(), ship_rect(185, 8));
    assert_eq!(game_loop.game().player().rect(), ship_rect(415, 535));
    let commands = frame.unwrap();
    assert_eq!(commands.len(), 10);
    assert_eq!(
        commands[0],
        DrawCommand::Image { image: PLAYER_IMAGE, region: ship_rect(415, 535) }
    );
    assert_eq!(
        commands[1],
        DrawCommand::Image { image: ENEMY_IMAGE, region: ship_rect(185, 8) }
    );
}

#[test]
fn late_loop_does_not_make_up_for_missed_frames() {
    let mut game_loop = started(0);
    assert!(game_loop.advance(10 * RENDER_PERIOD + 5).is_some());
    assert_eq!(game_loop.advance(10 * RENDER_PERIOD + 5), None);
    assert_eq!(game_loop.advance(11 * RENDER_PERIOD - 1), None);
    assert!(game_loop.advance(11 * RENDER_PERIOD).is_some());
}

#[test]
fn one_second_is_thirty_updates() {
    let mut game_loop = started(0);
    game_loop.advance(1_000_000_000);
    assert_eq!(game_loop.game().enemies()[0].rect(), ship_rect(185, 35));
}

#[test]
fn clock_running_backwards_changes_nothing() {
    let mut game_loop = started(1_000_000_000);
    assert_eq!(game_loop.advance(0), None);
    assert_eq!(game_loop.advance(999_999_999), None);
    assert_eq!(game_loop.game().enemies()[0].rect(), ship_rect(185, 5));
    assert!(game_loop.advance(1_000_000_000 + UPDATE_PERIOD).is_some());
    assert_eq!(game_loop.game().enemies()[0].rect(), ship_rect(185, 6));
}
