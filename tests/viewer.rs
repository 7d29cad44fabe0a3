use mevi::event::{InputEvent, Key, MenuEvent, MeviEvent};
use mevi::font::{ByteOrder, FontDrawer, GlyphMetrics, LoadedFont};
use mevi::geometry::Rect;
use mevi::image_info::ImageInfo;
use mevi::menu::{Menu, MenuAction, MenuIds, PictureIds};
use mevi::render_string::{RenderLine, RenderString};
use mevi::request::{PictureStyle, Request};
use mevi::viewer::{Gcs, Mevi, MeviState, Pics, Pms, ScreenInfo, WmAtoms};
use x11rb::protocol::ErrorKind;
use x11rb::x11_utils::X11Error;

fn drawer() -> FontDrawer {
    let mut glyphs = Vec::new();
    for c in 32u8..127 {
        glyphs.push(GlyphMetrics { ch: c as char, id: c as u32, advance: 1 });
    }
    FontDrawer::new(LoadedFont { glyph_set: 9, line_height: 12, glyphs }, ByteOrder::LsbFirst)
}

fn entry(action: MenuAction) -> (MenuAction, RenderString) {
    let line = RenderLine { chunks: vec![], width: 60, height: 10 };
    (action, RenderString::new(vec![line]).pad(5))
}

fn pictures(base: u32) -> PictureIds {
    PictureIds {
        active_pixmap: base,
        active_picture: base + 1,
        inactive_pixmap: base + 2,
        inactive_picture: base + 3,
    }
}

fn viewer() -> Mevi {
    let d = drawer();
    let info = ImageInfo {
        ow: 2000,
        oh: 600,
        w: 1000,
        h: 300,
        size: 512,
        path: "img.png".to_string(),
        format: "Png".to_string(),
    };
    let file_info = info.file_info(&d);
    let ids = MenuIds { window: 50, picture: 51, items: vec![pictures(60), pictures(64)] };
    let (menu, _) = Menu::with_entries(
        vec![entry(MenuAction::ToggleFileInfo), entry(MenuAction::Exit)],
        ids,
        24,
        13,
        1,
        0,
    );
    let state = MeviState::init(
        1,
        50,
        Pms { image: 2, buffer: 3, font_buffer: 4, background: 5 },
        Gcs { buffer: 6, background: 7, tile: 8 },
        Pics { window: 9, buffer: 11, font_buffer: 12 },
        false,
    );
    let screen = ScreenInfo { root: 10, root_depth: 24, root_pict_format: 13 };
    let atoms = WmAtoms { wm_delete_window: 20, net_wm_state: 21, net_wm_state_fullscreen: 22, atom: 4 };
    Mevi::init(state, screen, atoms, file_info, d, menu, 1000, 300)
}

fn classify(m: &Mevi, e: InputEvent) -> MeviEvent {
    MeviEvent::handle(m, e)
}

#[test]
fn initial_state() {
    let m = viewer();
    assert_eq!((m.w, m.h), (600, 800));
    assert!(!m.state.should_redraw && !m.state.should_exit && !m.state.fullscreen);
    assert_eq!(m.menu.rect, Rect::new(0, 0, 70, 40));
}

#[test]
fn redraw_without_file_info() {
    let mut m = viewer();
    m.state.should_redraw = true;
    let reqs = m.draw_image(800, 600);
    assert_eq!(
        reqs,
        vec![
            Request::CreatePixmap { depth: 24, pid: 3, drawable: 10, width: 800, height: 600 },
            Request::FillRectangle { drawable: 3, gc: 8, rect: Rect::new(0, 0, 800, 600) },
            Request::CopyArea {
                src: 2,
                dst: 3,
                gc: 6,
                src_x: 100,
                src_y: 0,
                dst_x: 0,
                dst_y: 150,
                width: 800,
                height: 300,
            },
            Request::CopyArea {
                src: 3,
                dst: 1,
                gc: 6,
                src_x: 0,
                src_y: 0,
                dst_x: 0,
                dst_y: 0,
                width: 800,
                height: 600,
            },
            Request::FreePixmap { pixmap: 3 },
            Request::Flush,
        ]
    );
    assert!(!m.state.should_redraw);
    assert_eq!((m.w, m.h), (800, 600));
}

#[test]
fn redraw_with_file_info() {
    let mut m = viewer();
    m.toggle_show_file_info();
    assert!(m.state.draw_info && m.state.should_redraw);
    let reqs = m.draw_image(800, 600);
    assert_eq!(
        reqs[3],
        Request::CreatePicture { pid: 11, drawable: 3, format: 13, style: PictureStyle::Repeat }
    );
    let n = reqs.len();
    // one fill pair and four glyph runs between the picture's creation and release
    assert_eq!(n, 3 + 1 + 2 + 4 + 1 + 3);
    assert_eq!(reqs[n - 4], Request::FreePicture { picture: 11 });
    assert_eq!(reqs[n - 1], Request::Flush);
}

#[test]
fn redraw_twice_sends_the_same_requests() {
    let mut m = viewer();
    m.toggle_show_file_info();
    let first = m.draw_image(1024, 768);
    let second = m.draw_image(1024, 768);
    assert_eq!(first, second);
}

#[test]
fn calculate_rects_records_window_size() {
    let mut m = viewer();
    let (child, parent) = m.calculate_rects(800, 600);
    assert_eq!(child, Rect::new(100, 0, 800, 300));
    assert_eq!(parent, Rect::new(0, 150, 800, 600));
    assert_eq!((m.w, m.h), (800, 600));
    assert_eq!(m.copy_to_window(), Request::CopyArea {
        src: 3,
        dst: 1,
        gc: 6,
        src_x: 0,
        src_y: 0,
        dst_x: 0,
        dst_y: 0,
        width: 800,
        height: 600,
    });
}

#[test]
fn fullscreen_toggles_state_property() {
    let mut m = viewer();
    let reqs = m.toggle_fullscreen();
    assert_eq!(
        reqs,
        vec![
            Request::UnmapWindow { window: 1 },
            Request::ChangeProperty32 { window: 1, property: 21, type_: 4, data: vec![22] },
            Request::MapWindow { window: 1 },
            Request::Flush,
        ]
    );
    assert!(m.state.fullscreen);
    let reqs = m.on_event(&MeviEvent::ToggleFullscreen);
    assert_eq!(reqs[1], Request::ChangeProperty32 { window: 1, property: 21, type_: 4, data: vec![] });
    assert!(!m.state.fullscreen);
}

#[test]
fn keys_from_keycodes() {
    assert_eq!(Key::from(9), Key::Esc);
    assert_eq!(Key::from(31), Key::I);
    assert_eq!(Key::from(36), Key::Enter);
    assert_eq!(Key::from(41), Key::F);
    assert_eq!(Key::from(58), Key::M);
    assert_eq!(Key::from(111), Key::Up);
    assert_eq!(Key::from(116), Key::Down);
    assert_eq!(Key::from(10), Key::Unknown);
}

#[test]
fn expose_with_more_pending_is_ignored() {
    let m = viewer();
    assert!(matches!(classify(&m, InputEvent::Expose { count: 0 }), MeviEvent::DrawImage));
    assert!(matches!(classify(&m, InputEvent::Expose { count: 2 }), MeviEvent::Idle));
}

#[test]
fn keys_drive_viewer_and_menu() {
    let m = viewer();
    assert!(matches!(classify(&m, InputEvent::KeyRelease { detail: 41 }), MeviEvent::ToggleFullscreen));
    assert!(matches!(classify(&m, InputEvent::KeyRelease { detail: 31 }), MeviEvent::ToggleFileInfo));
    assert!(matches!(
        classify(&m, InputEvent::KeyRelease { detail: 58 }),
        MeviEvent::Menu(MenuEvent::MapAt(265, 380))
    ));
    assert!(matches!(classify(&m, InputEvent::KeyRelease { detail: 9 }), MeviEvent::Exit));
    assert!(matches!(
        classify(&m, InputEvent::KeyRelease { detail: 111 }),
        MeviEvent::Menu(MenuEvent::Prev)
    ));
    assert!(matches!(
        classify(&m, InputEvent::KeyRelease { detail: 116 }),
        MeviEvent::Menu(MenuEvent::Next)
    ));
    assert!(matches!(
        classify(&m, InputEvent::KeyRelease { detail: 36 }),
        MeviEvent::Menu(MenuEvent::Select)
    ));
    assert!(matches!(classify(&m, InputEvent::KeyRelease { detail: 1 }), MeviEvent::Idle));
}

#[test]
fn menu_key_centres_in_small_window() {
    let mut m = viewer();
    m.w = 20;
    m.h = 10;
    assert!(matches!(
        classify(&m, InputEvent::KeyRelease { detail: 58 }),
        MeviEvent::Menu(MenuEvent::MapAt(0, 0))
    ));
}

#[test]
fn pointer_events_with_visible_menu() {
    let mut m = viewer();
    m.on_event(&MeviEvent::Menu(MenuEvent::MapAt(50, 50)));
    let press = |detail: u8, x: i16, y: i16| InputEvent::ButtonPress { detail, event_x: x, event_y: y };
    assert!(matches!(classify(&m, press(1, 60, 60)), MeviEvent::Menu(MenuEvent::Select)));
    assert!(matches!(classify(&m, press(1, 10, 10)), MeviEvent::Menu(MenuEvent::Unmap)));
    assert!(matches!(classify(&m, press(3, 60, 60)), MeviEvent::Menu(MenuEvent::Unmap)));
    assert!(matches!(classify(&m, press(2, 60, 60)), MeviEvent::Idle));
    assert!(matches!(
        classify(&m, InputEvent::MotionNotify { event_x: 60, event_y: 75 }),
        MeviEvent::Menu(MenuEvent::FindHovered(60, 75))
    ));
    assert!(matches!(
        classify(&m, InputEvent::MotionNotify { event_x: 500, event_y: 75 }),
        MeviEvent::Menu(MenuEvent::Deselect)
    ));
    assert!(matches!(classify(&m, InputEvent::KeyRelease { detail: 9 }), MeviEvent::Menu(MenuEvent::Unmap)));
    assert!(matches!(classify(&m, InputEvent::KeyRelease { detail: 58 }), MeviEvent::Menu(MenuEvent::Unmap)));
}

#[test]
fn pointer_events_with_hidden_menu() {
    let m = viewer();
    let press = |detail: u8| InputEvent::ButtonPress { detail, event_x: 5, event_y: 6 };
    assert!(matches!(classify(&m, press(3)), MeviEvent::Menu(MenuEvent::MapAt(5, 6))));
    assert!(matches!(classify(&m, press(1)), MeviEvent::Idle));
    assert!(matches!(
        classify(&m, InputEvent::MotionNotify { event_x: 5, event_y: 6 }),
        MeviEvent::Idle
    ));
}

#[test]
fn delete_message_for_this_window_exits() {
    let m = viewer();
    let msg = |format: u8, window: u32, data0: u32| InputEvent::ClientMessage { format, window, data0 };
    assert!(matches!(classify(&m, msg(32, 1, 20)), MeviEvent::Exit));
    assert!(matches!(classify(&m, msg(32, 2, 20)), MeviEvent::Idle));
    assert!(matches!(classify(&m, msg(8, 1, 20)), MeviEvent::Idle));
    assert!(matches!(classify(&m, msg(32, 1, 21)), MeviEvent::Idle));
    assert!(matches!(classify(&m, InputEvent::Other), MeviEvent::Idle));
}

#[test]
fn server_error_is_passed_on_and_changes_nothing() {
    let mut m = viewer();
    let err = X11Error {
        error_kind: ErrorKind::Drawable,
        error_code: 9,
        sequence: 3,
        bad_value: 77,
        minor_opcode: 0,
        major_opcode: 62,
        extension_name: None,
        request_name: Some("CopyArea"),
    };
    let e = classify(&m, InputEvent::Error(err.clone()));
    match &e {
        MeviEvent::Error(got) => assert_eq!(*got, err),
        _ => panic!("expected the error"),
    }
    assert!(m.on_event(&e).is_empty());
    assert!(!m.state.should_redraw && !m.state.should_exit);
}

#[test]
fn events_set_viewer_flags() {
    let mut m = viewer();
    assert!(m.on_event(&MeviEvent::DrawImage).is_empty());
    assert!(m.state.should_redraw);
    m.on_event(&MeviEvent::ToggleFileInfo);
    assert!(m.state.draw_info);
    m.on_event(&MeviEvent::Idle);
    assert!(!m.state.should_exit);
    m.on_event(&MeviEvent::Exit);
    assert!(m.state.should_exit);
}

#[test]
fn menu_action_toggles_file_info() {
    let mut m = viewer();
    m.on_event(&MeviEvent::Menu(MenuEvent::MapAt(0, 0)));
    let reqs = m.on_event(&MeviEvent::Menu(MenuEvent::Select));
    assert_eq!(reqs.len(), 3);
    assert!(m.state.draw_info && m.state.should_redraw);
    assert!(!m.menu.visible);
}

#[test]
fn open_menu_step_and_choose_second_item() {
    let mut m = viewer();
    let (child, parent) = m.calculate_rects(800, 600);
    assert_eq!(child, Rect::new(100, 0, 800, 300));
    assert_eq!(parent, Rect::new(0, 150, 800, 600));
    assert_eq!(m.menu.rect.h, 40);
    let e = classify(&m, InputEvent::ButtonPress { detail: 3, event_x: 50, event_y: 50 });
    let reqs = m.on_event(&e);
    assert!(m.menu.visible);
    assert_eq!((m.menu.rect.x, m.menu.rect.y), (50, 50));
    assert_eq!(m.menu.selected, Some(0));
    assert_eq!(reqs[0], Request::ConfigureWindow { window: 50, x: 50, y: 50 });
    let e = classify(&m, InputEvent::KeyRelease { detail: 116 });
    m.on_event(&e);
    assert_eq!(m.menu.selected, Some(1));
    assert_eq!(m.menu.get_action(), MenuAction::Exit);
    let e = classify(&m, InputEvent::KeyRelease { detail: 36 });
    let reqs = m.on_event(&e);
    assert!(!m.menu.visible);
    assert_eq!(reqs[1], Request::UnmapWindow { window: 50 });
    assert!(m.state.should_exit);
}
