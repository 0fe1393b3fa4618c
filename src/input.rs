//! Keyboard and mouse state, fed by the window's event queue once a frame.
use vstd::prelude::*;

verus! {

/// The keys that the game reads.
#[derive(Clone, Copy, Debug, PartialEq, Eq, Hash, Structural)]
pub enum Key {
    Up,
    Down,
    Left,
    Right,
    W,
    A,
    S,
    D,
    Escape,
}

/// Number of distinct keys.
pub const KEY_COUNT: usize = 9;

pub open spec fn key_index(k: Key) -> int {
    match k {
        Key::Up => 0,
        Key::Down => 1,
        Key::Left => 2,
        Key::Right => 3,
        Key::W => 4,
        Key::A => 5,
        Key::S => 6,
        Key::D => 7,
        Key::Escape => 8,
    }
}

impl Key {
    pub fn index(self) -> (r: usize)
        ensures
            r == key_index(self),
            r < KEY_COUNT,
    {
        match self {
            Key::Up => 0,
            Key::Down => 1,
            Key::Left => 2,
            Key::Right => 3,
            Key::W => 4,
            Key::A => 5,
            Key::S => 6,
            Key::D => 7,
            Key::Escape => 8,
        }
    }
}

/// Progress of a left click: the button went down (`Held`), and the press
/// has been reported once (`Clicked`) until the button comes back up.
#[derive(Clone, Copy, Debug, PartialEq, Eq, Structural)]
pub enum ClickState {
    Unheld,
    Held,
    Clicked,
}

/// What the window reported since the last frame.
#[derive(Clone, Copy, Debug, PartialEq, Eq, Structural)]
pub enum InputEvent {
    Quit,
    KeyDown { key: Key, repeat: bool },
    KeyUp { key: Key },
}

/// Where the mouse is and whether its left button is down.
#[derive(Clone, Copy, Debug, PartialEq, Eq, Structural)]
pub struct MouseSnapshot {
    pub x: i32,
    pub y: i32,
    pub left: bool,
}

/// The abstract state of [`Events`].
pub struct EventsView {
    pub pressed: Set<Key>,
    pub click_state: ClickState,
    pub mouse: MouseSnapshot,
    pub can_quit: bool,
}

/// The state after one event.
pub open spec fn apply_event(v: EventsView, e: InputEvent) -> EventsView {
    match e {
        InputEvent::Quit => EventsView { can_quit: true, ..v },
        InputEvent::KeyDown { key, repeat } => if repeat {
            v
        } else {
            EventsView { pressed: v.pressed.insert(key), ..v }
        },
        InputEvent::KeyUp { key } => EventsView { pressed: v.pressed.remove(key), ..v },
    }
}

/// The state after a sequence of events, taken in order.
pub open spec fn apply_events(v: EventsView, es: Seq<InputEvent>) -> EventsView
    decreases es.len(),
{
    if es.len() == 0 {
        v
    } else {
        apply_event(apply_events(v, es.drop_last()), es.last())
    }
}

/// The click state after the mouse was sampled with its left button `left`.
pub open spec fn next_click_state(c: ClickState, left: bool) -> ClickState {
    if left && c == ClickState::Unheld {
        ClickState::Held
    } else if !left && c == ClickState::Clicked {
        ClickState::Unheld
    } else {
        c
    }
}

/// Keys held down, the left click's progress, the mouse, and whether the
/// window asked to quit.
pub struct Events {
    pressed_keys: Vec<bool>,
    click_state: ClickState,
    mouse: MouseSnapshot,
    can_quit: bool,
}

impl View for Events {
    type V = EventsView;

    closed spec fn view(&self) -> EventsView {
        EventsView {
            pressed: Set::new(|k: Key| self.pressed_keys@[key_index(k)]),
            click_state: self.click_state,
            mouse: self.mouse,
            can_quit: self.can_quit,
        }
    }
}

impl Events {
    /// One flag per key.
    pub closed spec fn wf(&self) -> bool {
        self.pressed_keys@.len() == KEY_COUNT
    }

    fn set_pressed(&mut self, key: Key, down: bool)
        requires
            old(self).wf(),
        ensures
            final(self).wf(),
            final(self)@ == (EventsView {
                pressed: if down {
                    old(self)@.pressed.insert(key)
                } else {
                    old(self)@.pressed.remove(key)
                },
                ..old(self)@
            }),
    {
        self.pressed_keys.set(key.index(), down);
        proof {
            let p = Set::new(|k: Key| self.pressed_keys@[key_index(k)]);
            if down {
                assert(p =~= old(self)@.pressed.insert(key));
            } else {
                assert(p =~= old(self)@.pressed.remove(key));
            }
        }
    }

    /// No key held, no click in progress, the mouse at the origin.
    pub fn new() -> (r: Events)
        ensures
            r.wf(),
            r@.pressed == Set::<Key>::empty(),
            r@.click_state == ClickState::Unheld,
            r@.mouse == (MouseSnapshot { x: 0, y: 0, left: false }),
            !r@.can_quit,
    {
        let r = Events {
            pressed_keys: vec![false, false, false, false, false, false, false, false, false],
            click_state: ClickState::Unheld,
            mouse: MouseSnapshot { x: 0, y: 0, left: false },
            can_quit: false,
        };
        assert(r@.pressed =~= Set::<Key>::empty());
        r
    }

    /// Takes in one frame's input: the mouse as sampled now, which moves the
    /// click state on, then the window's events in the order they came.
    pub fn update(&mut self, mouse: MouseSnapshot, events: &Vec<InputEvent>)
        requires
            old(self).wf(),
        ensures
            final(self).wf(),
            final(self)@ == apply_events(
                EventsView {
                    click_state: next_click_state(old(self)@.click_state, mouse.left),
                    mouse,
                    ..old(self)@
                },
                events@,
            ),
    {
        self.mouse = mouse;
        if mouse.left && self.click_state == ClickState::Unheld {
            self.click_state = ClickState::Held;
        }
        if !mouse.left && self.click_state == ClickState::Clicked {
            self.click_state = ClickState::Unheld;
        }
        let ghost start = self@;
        let mut i: usize = 0;
        while i < events.len()
            invariant
                i <= events@.len(),
                self.wf(),
                self@ == apply_events(start, events@.subrange(0, i as int)),
            decreases events@.len() - i,
        {
            let ghost before = self@;
            match events[i] {
                InputEvent::Quit => {
                    self.can_quit = true;
                },
                InputEvent::KeyDown { key, repeat } => {
                    if !repeat {
                        self.set_pressed(key, true);
                    }
                },
                InputEvent::KeyUp { key } => {
                    self.set_pressed(key, false);
                },
            }
            proof {
                assert(events@.subrange(0, i + 1).drop_last() =~= events@.subrange(0, i as int));
            }
            i = i + 1;
        }
        proof {
            assert(events@.subrange(0, events@.len() as int) =~= events@);
        }
    }

    pub fn key_is_pressed(&self, key: Key) -> (r: bool)
        requires
            self.wf(),
        ensures
            r == self@.pressed.contains(key),
    {
        self.pressed_keys[key.index()]
    }

    /// Whether the key is down, consuming the press: a held key is reported
    /// once until it is pressed again.
    pub fn key_is_pressed_once(&mut self, key: Key) -> (r: bool)
        requires
            old(self).wf(),
        ensures
            final(self).wf(),
            r == old(self)@.pressed.contains(key),
            final(self)@ == (EventsView { pressed: old(self)@.pressed.remove(key), ..old(self)@ }),
    {
        let pressed = self.key_is_pressed(key);
        self.set_pressed(key, false);
        pressed
    }

    /// Whether the left button went down since the last report; reports each
    /// press once.
    pub fn left_is_clicked(&mut self) -> (r: bool)
        ensures
            final(self).wf() == old(self).wf(),
            r == (old(self)@.click_state == ClickState::Held),
            final(self)@ == (EventsView {
                click_state: if r {
                    ClickState::Clicked
                } else {
                    old(self)@.click_state
                },
                ..old(self)@
            }),
    {
        if self.click_state == ClickState::Held {
            self.click_state = ClickState::Clicked;
            return true;
        }
        false
    }

    pub fn mouse(&self) -> (r: MouseSnapshot)
        ensures
            r == self@.mouse,
    {
        self.mouse
    }

    pub fn can_quit(&self) -> (r: bool)
        ensures
            r == self@.can_quit,
    {
        self.can_quit
    }

    /// Asks the frame loop to end.
    pub fn request_quit(&mut self)
        ensures
            final(self).wf() == old(self).wf(),
            final(self)@ == (EventsView { can_quit: true, ..old(self)@ }),
    {
        self.can_quit = true;
    }
}

} // verus!
