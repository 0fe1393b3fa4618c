use krab_kart::input::{ClickState, Events, InputEvent, Key, MouseSnapshot};
use krab_kart::menu::{Button, GameScreen, MainMenuScreen, PauseMenu};

fn mouse(x: i32, y: i32, left: bool) -> MouseSnapshot {
    MouseSnapshot { x, y, left }
}

#[test]
fn key_down_and_up() {
    let mut events = Events::new();
    assert!(!events.key_is_pressed(Key::Up));
    events.update(mouse(0, 0, false), &vec![InputEvent::KeyDown { key: Key::Up, repeat: false }]);
    assert!(events.key_is_pressed(Key::Up));
    assert!(!events.key_is_pressed(Key::Down));
    events.update(mouse(0, 0, false), &vec![InputEvent::KeyUp { key: Key::Up }]);
    assert!(!events.key_is_pressed(Key::Up));
}

#[test]
fn repeated_key_down_is_ignored() {
    let mut events = Events::new();
    events.update(mouse(0, 0, false), &vec![InputEvent::KeyDown { key: Key::W, repeat: true }]);
    assert!(!events.key_is_pressed(Key::W));
}

#[test]
fn events_apply_in_order() {
    let mut events = Events::new();
    events.update(
        mouse(0, 0, false),
        &vec![
            InputEvent::KeyDown { key: Key::A, repeat: false },
            InputEvent::KeyUp { key: Key::A },
            InputEvent::KeyDown { key: Key::D, repeat: false },
        ],
    );
    assert!(!events.key_is_pressed(Key::A));
    assert!(events.key_is_pressed(Key::D));
    assert!(!events.can_quit());
}

#[test]
fn quit_event() {
    let mut events = Events::new();
    events.update(mouse(0, 0, false), &vec![InputEvent::Quit]);
    assert!(events.can_quit());
}

#[test]
fn key_pressed_once_is_reported_once() {
    let mut events = Events::new();
    events.update(mouse(0, 0, false), &vec![InputEvent::KeyDown { key: Key::S, repeat: false }]);
    assert!(events.key_is_pressed_once(Key::S));
    assert!(!events.key_is_pressed_once(Key::S));
    assert!(!events.key_is_pressed(Key::S));
}

#[test]
fn left_click_is_reported_once_per_press() {
    let mut events = Events::new();
    assert!(!events.left_is_clicked());
    events.update(mouse(5, 6, true), &vec![]);
    assert_eq!(events.mouse(), mouse(5, 6, true));
    assert!(events.left_is_clicked());
    assert!(!events.left_is_clicked());
    // Still held: no new click.
    events.update(mouse(5, 6, true), &vec![]);
    assert!(!events.left_is_clicked());
    // Released, then pressed again.
    events.update(mouse(5, 6, false), &vec![]);
    events.update(mouse(5, 6, true), &vec![]);
    assert!(events.left_is_clicked());
}

#[test]
fn click_states() {
    assert_ne!(ClickState::Held, ClickState::Clicked);
    assert_ne!(ClickState::Unheld, ClickState::Held);
}

#[test]
fn button_new_keeps_fields() {
    let b = Button::new(3, -4, "Go");
    assert_eq!((b.x, b.y, b.text.as_str()), (3, -4, "Go"));
}

#[test]
fn button_hover_box() {
    // "Main Menu" is 9 bytes: 216 pixels wide, centered on (400, 300).
    let button = Button::new(0, 0, "Main Menu");
    let mut events = Events::new();
    let dims = (800, 600);
    for (x, y, inside) in [
        (400, 300, true),
        (293, 300, true),
        (507, 300, true),
        (292, 300, false),
        (508, 300, false),
        (400, 277, true),
        (400, 276, false),
        (400, 323, true),
        (400, 324, false),
    ] {
        events.update(mouse(x, y, false), &vec![]);
        assert_eq!(button.mouse_hovering(&events, dims), inside, "{} {}", x, y);
    }
}

#[test]
fn button_clicked_needs_hover_and_press() {
    let button = Button::new(0, 48, "Return to Game");
    let dims = (800, 600);
    let mut events = Events::new();
    events.update(mouse(0, 0, true), &vec![]);
    assert!(!button.clicked(&mut events, dims));
    // The press was not consumed by the miss.
    assert!(events.left_is_clicked());

    let mut events = Events::new();
    events.update(mouse(400, 348, false), &vec![]);
    assert!(!button.clicked(&mut events, dims));
    events.update(mouse(400, 348, true), &vec![]);
    assert!(button.clicked(&mut events, dims));
    assert!(!button.clicked(&mut events, dims));
}

#[test]
fn pause_menu_starts_unpaused() {
    let menu = PauseMenu::new();
    assert!(!menu.paused);
    assert_eq!(menu.goto_menu.text, "Main Menu");
    assert_eq!((menu.goto_game.x, menu.goto_game.y), (0, 48));
}

#[test]
fn escape_toggles_pause() {
    let mut menu = PauseMenu::new();
    let mut events = Events::new();
    events.update(mouse(0, 0, false), &vec![InputEvent::KeyDown { key: Key::Escape, repeat: false }]);
    menu.listen_for_escape(&mut events);
    assert!(menu.paused);
    // The press was consumed: holding Escape does not toggle again.
    menu.listen_for_escape(&mut events);
    assert!(menu.paused);
    events.update(mouse(0, 0, false), &vec![InputEvent::KeyDown { key: Key::Escape, repeat: false }]);
    menu.listen_for_escape(&mut events);
    assert!(!menu.paused);
}

#[test]
fn pause_menu_ignores_clicks_while_running() {
    let mut menu = PauseMenu::new();
    let mut events = Events::new();
    events.update(mouse(400, 300, true), &vec![]);
    assert!(!menu.handle_click(&mut events, (800, 600)));
    assert!(!menu.paused);
    assert!(events.left_is_clicked());
}

#[test]
fn pause_menu_return_to_game() {
    let mut menu = PauseMenu::new();
    menu.paused = true;
    let mut events = Events::new();
    events.update(mouse(400, 348, true), &vec![]);
    assert!(!menu.handle_click(&mut events, (800, 600)));
    assert!(!menu.paused);
}

#[test]
fn pause_menu_main_menu() {
    let mut menu = PauseMenu::new();
    menu.paused = true;
    let mut events = Events::new();
    events.update(mouse(400, 300, true), &vec![]);
    assert!(menu.handle_click(&mut events, (800, 600)));
    assert!(!menu.paused);
}

#[test]
fn pause_menu_click_elsewhere() {
    let mut menu = PauseMenu::new();
    menu.paused = true;
    let mut events = Events::new();
    events.update(mouse(10, 10, true), &vec![]);
    assert!(!menu.handle_click(&mut events, (800, 600)));
    assert!(menu.paused);
}

#[test]
fn main_menu_buttons() {
    let menu = MainMenuScreen::init();
    let dims = (800, 600);

    let mut events = Events::new();
    events.update(mouse(400, 268, true), &vec![]);
    assert_eq!(menu.press_buttons(&mut events, dims), Some(GameScreen::OnePlayer));

    let mut events = Events::new();
    events.update(mouse(400, 316, true), &vec![]);
    assert_eq!(menu.press_buttons(&mut events, dims), Some(GameScreen::TwoPlayer));

    let mut events = Events::new();
    events.update(mouse(400, 364, true), &vec![]);
    assert_eq!(menu.press_buttons(&mut events, dims), None);
    assert!(events.can_quit());

    let mut events = Events::new();
    events.update(mouse(0, 0, true), &vec![]);
    assert_eq!(menu.press_buttons(&mut events, dims), None);
    assert!(!events.can_quit());
}
