use vstd::prelude::*;

use crate::geometry::point_in;
use crate::viewer::Mevi;

verus! {

/// An error the display server reported for an earlier request.
#[verifier::external_type_specification]
#[verifier::external_body]
pub struct ExX11Error(x11rb::x11_utils::X11Error);

/// An event for the overlay menu.
#[derive(Clone, Copy, Debug, PartialEq, Eq, Structural)]
pub enum MenuEvent {
    MapAt(i16, i16),
    Unmap,
    Next,
    Prev,
    FindHovered(i16, i16),
    Select,
    Deselect,
}

/// A key the viewer responds to.
#[derive(Clone, Copy, Debug, PartialEq, Eq, Structural)]
pub enum Key {
    F,
    I,
    M,
    Up,
    Down,
    Esc,
    Enter,
    Unknown,
}

/// The key of a keycode.
pub open spec fn key_of(value: u8) -> Key {
    if value == 9 {
        Key::Esc
    } else if value == 31 {
        Key::I
    } else if value == 36 {
        Key::Enter
    } else if value == 41 {
        Key::F
    } else if value == 58 {
        Key::M
    } else if value == 111 {
        Key::Up
    } else if value == 116 {
        Key::Down
    } else {
        Key::Unknown
    }
}

impl From<u8> for Key {
    fn from(value: u8) -> Self {
        match value {
            9 => Key::Esc,
            31 => Key::I,
            36 => Key::Enter,
            41 => Key::F,
            58 => Key::M,
            111 => Key::Up,
            116 => Key::Down,
            _ => Key::Unknown,
        }
    }
}

impl vstd::std_specs::convert::FromSpecImpl<u8> for Key {
    open spec fn obeys_from_spec() -> bool {
        true
    }

    open spec fn from_spec(v: u8) -> Self {
        key_of(v)
    }
}

/// What the display server delivered, as far as the viewer reads it.
pub enum InputEvent {
    Expose { count: u16 },
    KeyRelease { detail: u8 },
    ButtonPress { detail: u8, event_x: i16, event_y: i16 },
    MotionNotify { event_x: i16, event_y: i16 },
    ClientMessage { format: u8, window: u32, data0: u32 },
    Error(x11rb::x11_utils::X11Error),
    Other,
}

/// What an event means to the viewer.
pub enum MeviEvent {
    DrawImage,
    ToggleFileInfo,
    ToggleFullscreen,
    Menu(MenuEvent),
    Exit,
    Idle,
    Error(x11rb::x11_utils::X11Error),
}

/// Where a box of `inner` is centred in `outer`, or 0 if it does not fit.
pub open spec fn centered(outer: u16, inner: u16) -> i16 {
    let v = outer / 2 - inner / 2;
    if v < 0 {
        0
    } else {
        v as i16
    }
}

/// The meaning of an event to the viewer `m`: an expose with more to come
/// is ignored; `F`, `I`, `M`, the arrows, `Esc` and `Enter` drive the viewer
/// and the menu; a right press opens the hidden menu at the pointer, a left
/// press inside the open menu selects, any other left or right press closes
/// it; motion inside the open menu hovers, outside it deselects; the window
/// manager's delete message for this window exits.
pub open spec fn classify(m: Mevi, e: InputEvent) -> MeviEvent {
    let r = m.menu.rect;
    let visible = m.menu.visible;
    match e {
        InputEvent::Expose { count } => if count == 0 {
            MeviEvent::DrawImage
        } else {
            MeviEvent::Idle
        },
        InputEvent::KeyRelease { detail } => match key_of(detail) {
            Key::F => MeviEvent::ToggleFullscreen,
            Key::I => MeviEvent::ToggleFileInfo,
            Key::M => if !visible {
                MeviEvent::Menu(MenuEvent::MapAt(centered(m.w, r.w), centered(m.h, r.h)))
            } else {
                MeviEvent::Menu(MenuEvent::Unmap)
            },
            Key::Up => MeviEvent::Menu(MenuEvent::Prev),
            Key::Down => MeviEvent::Menu(MenuEvent::Next),
            Key::Esc => if visible {
                MeviEvent::Menu(MenuEvent::Unmap)
            } else {
                MeviEvent::Exit
            },
            Key::Enter => MeviEvent::Menu(MenuEvent::Select),
            Key::Unknown => MeviEvent::Idle,
        },
        InputEvent::ButtonPress { detail, event_x, event_y } => if detail == 3 && !visible {
            MeviEvent::Menu(MenuEvent::MapAt(event_x, event_y))
        } else if detail == 1 && visible && point_in(r, event_x as int, event_y as int) {
            MeviEvent::Menu(MenuEvent::Select)
        } else if (detail == 1 || detail == 3) && visible {
            MeviEvent::Menu(MenuEvent::Unmap)
        } else {
            MeviEvent::Idle
        },
        InputEvent::MotionNotify { event_x, event_y } => if visible && point_in(
            r,
            event_x as int,
            event_y as int,
        ) {
            MeviEvent::Menu(MenuEvent::FindHovered(event_x, event_y))
        } else if visible {
            MeviEvent::Menu(MenuEvent::Deselect)
        } else {
            MeviEvent::Idle
        },
        InputEvent::ClientMessage { format, window, data0 } => if format == 32 && window
            == m.state.window && data0 == m.atoms.wm_delete_window {
            MeviEvent::Exit
        } else {
            MeviEvent::Idle
        },
        InputEvent::Error(x) => MeviEvent::Error(x),
        InputEvent::Other => MeviEvent::Idle,
    }
}

fn centered_offset(outer: u16, inner: u16) -> (r: i16)
    ensures
        r == centered(outer, inner),
{
    (outer / 2).saturating_sub(inner / 2) as i16
}

impl MeviEvent {
    /// Classifies `event` for the viewer `app` (see `classify`).
    pub fn handle(app: &Mevi, event: InputEvent) -> (r: Self)
        ensures
            r == classify(*app, event),
    {
        let menu_rect = app.menu.rect;
        let visible = app.menu.visible;
        match event {
            InputEvent::Expose { count } => {
                if count == 0 {
                    MeviEvent::DrawImage
                } else {
                    MeviEvent::Idle
                }
            },
            InputEvent::KeyRelease { detail } => match Key::from(detail) {
                Key::F => MeviEvent::ToggleFullscreen,
                Key::I => MeviEvent::ToggleFileInfo,
                Key::M => {
                    if !visible {
                        let x = centered_offset(app.w, menu_rect.w);
                        let y = centered_offset(app.h, menu_rect.h);
                        MeviEvent::Menu(MenuEvent::MapAt(x, y))
                    } else {
                        MeviEvent::Menu(MenuEvent::Unmap)
                    }
                },
                Key::Up => MeviEvent::Menu(MenuEvent::Prev),
                Key::Down => MeviEvent::Menu(MenuEvent::Next),
                Key::Esc => {
                    if visible {
                        MeviEvent::Menu(MenuEvent::Unmap)
                    } else {
                        MeviEvent::Exit
                    }
                },
                Key::Enter => MeviEvent::Menu(MenuEvent::Select),
                Key::Unknown => MeviEvent::Idle,
            },
            InputEvent::ButtonPress { detail, event_x, event_y } => {
                if detail == 3 && !visible {
                    MeviEvent::Menu(MenuEvent::MapAt(event_x, event_y))
                } else if detail == 1 && visible && menu_rect.contains(
                    event_x as i32,
                    event_y as i32,
                ) {
                    MeviEvent::Menu(MenuEvent::Select)
                } else if (detail == 1 || detail == 3) && visible {
                    MeviEvent::Menu(MenuEvent::Unmap)
                } else {
                    MeviEvent::Idle
                }
            },
            InputEvent::MotionNotify { event_x, event_y } => {
                if visible && menu_rect.contains(event_x as i32, event_y as i32) {
                    MeviEvent::Menu(MenuEvent::FindHovered(event_x, event_y))
                } else if visible {
                    MeviEvent::Menu(MenuEvent::Deselect)
                } else {
                    MeviEvent::Idle
                }
            },
            InputEvent::ClientMessage { format, window, data0 } => {
                if format == 32 && window == app.state.window && data0
                    == app.atoms.wm_delete_window {
                    MeviEvent::Exit
                } else {
                    MeviEvent::Idle
                }
            },
            InputEvent::Error(e) => MeviEvent::Error(e),
            InputEvent::Other => MeviEvent::Idle,
        }
    }
}

} // verus!
