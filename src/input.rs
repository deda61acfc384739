//! Keys of the handheld and the menu-key chord classifier that turns raw key
//! events into what the daemon should do.
use vstd::prelude::*;

verus! {

/// A physical key of the device.
#[derive(Clone, Copy, Debug, PartialEq, Eq, Structural)]
pub enum Key {
    Up,
    Down,
    Left,
    Right,
    A,
    B,
    X,
    Y,
    Start,
    Select,
    L,
    R,
    Menu,
    L2,
    R2,
    Power,
    VolDown,
    VolUp,
    Unknown,
}

/// A raw event read from the input device.
#[derive(Clone, Copy, Debug, PartialEq, Eq, Structural)]
pub enum KeyEvent {
    Pressed(Key),
    Released(Key),
    Autorepeat(Key),
}

/// What a key event asks of the daemon.
#[derive(Clone, Copy, Debug, PartialEq, Eq, Structural)]
pub enum Intent {
    /// Nothing to do.
    Ignore,
    /// Move the volume by this many steps.
    Volume(i32),
    /// Move the brightness by this many percent.
    Brightness(i8),
    /// Open the overlay menu, or close it if it is open.
    ToggleMenu,
    /// Begin the power-off sequence.
    PowerOff,
}

/// State of the menu key: held, and held with no other key event since it
/// went down.
#[derive(Clone, Copy, Debug, PartialEq, Eq, Structural)]
pub struct MenuChord {
    pub is_menu_pressed: bool,
    pub is_menu_pressed_alone: bool,
}

/// Chord state and intent after `e`, from chord state `c`; `ingame` tells
/// whether a game is running.
pub open spec fn chord_step(c: MenuChord, e: KeyEvent, ingame: bool) -> (MenuChord, Intent) {
    match e {
        KeyEvent::Pressed(Key::Menu) => (MenuChord { is_menu_pressed: true, is_menu_pressed_alone: true }, Intent::Ignore),
        KeyEvent::Autorepeat(Key::Menu) => (c, Intent::Ignore),
        KeyEvent::Released(Key::Menu) => {
            if ingame && c.is_menu_pressed_alone {
                (MenuChord { is_menu_pressed: false, is_menu_pressed_alone: false }, Intent::ToggleMenu)
            } else {
                (MenuChord { is_menu_pressed: false, ..c }, Intent::Ignore)
            }
        },
        _ => {
            let next = MenuChord { is_menu_pressed_alone: false, ..c };
            let intent = match e {
                KeyEvent::Pressed(Key::VolDown) | KeyEvent::Autorepeat(Key::VolDown) => {
                    if c.is_menu_pressed { Intent::Brightness(-5i8) } else { Intent::Volume(-1i32) }
                },
                KeyEvent::Pressed(Key::VolUp) | KeyEvent::Autorepeat(Key::VolUp) => {
                    if c.is_menu_pressed { Intent::Brightness(5i8) } else { Intent::Volume(1i32) }
                },
                KeyEvent::Autorepeat(Key::Power) => Intent::PowerOff,
                _ => Intent::Ignore,
            };
            (next, intent)
        },
    }
}

impl MenuChord {
    /// Neither flag set.
    pub fn new() -> (r: MenuChord)
        ensures
            !r.is_menu_pressed,
            !r.is_menu_pressed_alone,
    {
        MenuChord { is_menu_pressed: false, is_menu_pressed_alone: false }
    }

    /// Takes in one key event and says what it asks for. Pressing Menu arms
    /// the chord; an event of any other key breaks it, while Menu's own
    /// autorepeat leaves it as it is; releasing Menu
    /// while it is still unbroken and a game runs toggles the menu. Volume
    /// keys adjust brightness while Menu is held; a held Power key powers off.
    pub fn classify(&mut self, event: KeyEvent, ingame: bool) -> (r: Intent)
        ensures
            (*final(self), r) == chord_step(*old(self), event, ingame),
    {
        match event {
            KeyEvent::Pressed(Key::Menu) => {
                self.is_menu_pressed = true;
                self.is_menu_pressed_alone = true;
                Intent::Ignore
            },
            KeyEvent::Autorepeat(Key::Menu) => Intent::Ignore,
            KeyEvent::Released(Key::Menu) => {
                self.is_menu_pressed = false;
                if ingame && self.is_menu_pressed_alone {
                    self.is_menu_pressed_alone = false;
                    Intent::ToggleMenu
                } else {
                    Intent::Ignore
                }
            },
            _ => {
                let held = self.is_menu_pressed;
                self.is_menu_pressed_alone = false;
                match event {
                    KeyEvent::Pressed(Key::VolDown) | KeyEvent::Autorepeat(Key::VolDown) => {
                        if held {
                            Intent::Brightness(-5)
                        } else {
                            Intent::Volume(-1)
                        }
                    },
                    KeyEvent::Pressed(Key::VolUp) | KeyEvent::Autorepeat(Key::VolUp) => {
                        if held {
                            Intent::Brightness(5)
                        } else {
                            Intent::Volume(1)
                        }
                    },
                    KeyEvent::Autorepeat(Key::Power) => Intent::PowerOff,
                    _ => Intent::Ignore,
                }
            },
        }
    }
}

} // verus!
