//! Text buttons placed relative to the canvas center, the pause menu and
//! the main menu's choice of screen.
use vstd::prelude::*;
use vstd::utf8::encode_utf8;
use crate::input::{ClickState, Events, EventsView, Key, MouseSnapshot};

verus! {

/// Height of a button's text, in pixels.
pub const BUTTON_TEXT_SIZE: i32 = 24;

/// Width on screen of a button's label: each byte of it, as `str::len`
/// counts them, is a text cell.
pub open spec fn label_width(text: Seq<char>) -> int {
    (encode_utf8(text).len() as usize) as int * 24
}

/// True when the mouse lies strictly inside the box of a button at offset
/// `(x, y)` from the center of a canvas of the given dimensions: the label's
/// width across, and one text size above and below the offset.
pub open spec fn hovering(x: int, y: int, text: Seq<char>, mouse: MouseSnapshot, dimensions: (u32, u32)) -> bool {
    let half_width = label_width(text) / 2;
    let cx = dimensions.0 / 2;
    let cy = dimensions.1 / 2;
    &&& mouse.x < x + half_width + cx
    &&& mouse.x > x - half_width + cx
    &&& mouse.y < y + 24 + cy
    &&& mouse.y > y - 24 + cy
}

/// A text button; `x` and `y` are relative to the center of the canvas.
pub struct Button {
    pub x: i32,
    pub y: i32,
    pub text: String,
}

/// True when a press of the left button over `b` is waiting to be reported.
pub open spec fn clicked_spec(b: Button, e: EventsView, dimensions: (u32, u32)) -> bool {
    hovering(b.x as int, b.y as int, b.text@, e.mouse, dimensions) && e.click_state == ClickState::Held
}

/// The events after a click was reported, or unchanged where none was.
pub open spec fn after_click(e: EventsView, reported: bool) -> EventsView {
    if reported {
        EventsView { click_state: ClickState::Clicked, ..e }
    } else {
        e
    }
}

impl Button {
    pub fn new(buttonx: i32, buttony: i32, button_text: &str) -> (r: Button)
        ensures
            r.x == buttonx,
            r.y == buttony,
            r.text@ == button_text@,
    {
        Button { x: buttonx, y: buttony, text: button_text.to_owned() }
    }

    pub fn mouse_hovering(&self, events: &Events, dimensions: (u32, u32)) -> (r: bool)
        ensures
            r == hovering(self.x as int, self.y as int, self.text@, events@.mouse, dimensions),
    {
        let mouse = events.mouse();
        let label = self.text.as_str();
        let n = label.len();
        let width = (n as i128) * 24;
        let cx = (dimensions.0 / 2) as i128;
        let cy = (dimensions.1 / 2) as i128;
        let (posx, posy) = (mouse.x as i128, mouse.y as i128);
        let (x, y) = (self.x as i128, self.y as i128);
        posx < x + width / 2 + cx && posx > x - width / 2 + cx && posy < y + 24 + cy && posy > y - 24 + cy
    }

    /// Whether the button was clicked: the mouse is over it and a press of
    /// the left button is waiting, which this reports.
    pub fn clicked(&self, events: &mut Events, dimensions: (u32, u32)) -> (r: bool)
        ensures
            r == clicked_spec(*self, old(events)@, dimensions),
            final(events)@ == after_click(old(events)@, r),
            final(events).wf() == old(events).wf(),
    {
        self.mouse_hovering(events, dimensions) && events.left_is_clicked()
    }
}

/// The pause overlay: whether the game is paused, and its two buttons.
pub struct PauseMenu {
    pub paused: bool,
    pub goto_menu: Button,
    pub goto_game: Button,
}

impl PauseMenu {
    pub fn new() -> (r: PauseMenu)
        ensures
            !r.paused,
            r.goto_menu.x == 0 && r.goto_menu.y == 0 && r.goto_menu.text@ == "Main Menu"@,
            r.goto_game.x == 0 && r.goto_game.y == 48 && r.goto_game.text@ == "Return to Game"@,
    {
        PauseMenu {
            paused: false,
            goto_menu: Button::new(0, 0, "Main Menu"),
            goto_game: Button::new(0, 48, "Return to Game"),
        }
    }

    /// While paused, a click on "Return to Game" resumes, and a click on
    /// "Main Menu" resumes and returns true so that the caller leaves for the
    /// menu. Not paused, nothing happens.
    pub fn handle_click(&mut self, events: &mut Events, canvas_dimensions: (u32, u32)) -> (r: bool)
        ensures
            ({
                let game = old(self).paused && clicked_spec(old(self).goto_game, old(events)@, canvas_dimensions);
                let menu = old(self).paused && !game && clicked_spec(old(self).goto_menu, old(events)@, canvas_dimensions);
                &&& r == menu
                &&& final(self).paused == (old(self).paused && !game && !menu)
                &&& final(events)@ == after_click(old(events)@, game || menu)
            }),
            final(self).goto_menu == old(self).goto_menu,
            final(self).goto_game == old(self).goto_game,
            final(events).wf() == old(events).wf(),
    {
        if !self.paused {
            return false;
        }
        if self.goto_game.clicked(events, canvas_dimensions) {
            self.paused = false;
        } else if self.goto_menu.clicked(events, canvas_dimensions) {
            self.paused = false;
            return true;
        }
        false
    }

    /// A press of Escape, reported once, toggles the pause.
    pub fn listen_for_escape(&mut self, events: &mut Events)
        requires
            old(events).wf(),
        ensures
            final(self).paused == (old(self).paused != old(events)@.pressed.contains(Key::Escape)),
            final(self).goto_menu == old(self).goto_menu,
            final(self).goto_game == old(self).goto_game,
            final(events).wf(),
            final(events)@ == (EventsView { pressed: old(events)@.pressed.remove(Key::Escape), ..old(events)@ }),
    {
        if events.key_is_pressed_once(Key::Escape) {
            self.paused = !self.paused;
        }
    }
}

/// The screens of the game.
#[derive(Clone, Copy, Debug, PartialEq, Eq, Structural)]
pub enum GameScreen {
    MainMenu,
    OnePlayer,
    TwoPlayer,
}

/// The main menu's buttons.
pub struct MainMenuScreen {
    pub oneplayer_button: Button,
    pub twoplayer_button: Button,
    pub quit_button: Button,
}

impl MainMenuScreen {
    pub fn init() -> (r: MainMenuScreen)
        ensures
            r.oneplayer_button.x == 0 && r.oneplayer_button.y == -32 && r.oneplayer_button.text@ == "One Player"@,
            r.twoplayer_button.x == 0 && r.twoplayer_button.y == 16 && r.twoplayer_button.text@ == "Two Player"@,
            r.quit_button.x == 0 && r.quit_button.y == 64 && r.quit_button.text@ == "QUIT"@,
    {
        MainMenuScreen {
            oneplayer_button: Button::new(0, -32, "One Player"),
            twoplayer_button: Button::new(0, 16, "Two Player"),
            quit_button: Button::new(0, 64, "QUIT"),
        }
    }

    /// The screen chosen by a click, if any. A click on "QUIT" asks the frame
    /// loop to end and chooses no screen.
    pub fn press_buttons(&self, events: &mut Events, canvas_dimensions: (u32, u32)) -> (r: Option<GameScreen>)
        ensures
            ({
                let e = old(events)@;
                let quit = clicked_spec(self.quit_button, e, canvas_dimensions);
                let one = !quit && clicked_spec(self.oneplayer_button, e, canvas_dimensions);
                let two = !quit && !one && clicked_spec(self.twoplayer_button, e, canvas_dimensions);
                &&& r == if one {
                    Some(GameScreen::OnePlayer)
                } else if two {
                    Some(GameScreen::TwoPlayer)
                } else {
                    None
                }
                &&& final(events)@ == (EventsView {
                    can_quit: e.can_quit || quit,
                    ..after_click(e, quit || one || two)
                })
            }),
            final(events).wf() == old(events).wf(),
    {
        if self.quit_button.clicked(events, canvas_dimensions) {
            events.request_quit();
            return None;
        } else if self.oneplayer_button.clicked(events, canvas_dimensions) {
            return Some(GameScreen::OnePlayer);
        } else if self.twoplayer_button.clicked(events, canvas_dimensions) {
            return Some(GameScreen::TwoPlayer);
        }
        None
    }
}

} // verus!
