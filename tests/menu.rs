use mevi::event::MenuEvent;
use mevi::font::{ByteOrder, FontDrawer, GlyphMetrics, LoadedFont};
use mevi::geometry::Rect;
use mevi::menu::{Menu, MenuAction, MenuIds, PictureIds};
use mevi::render_string::{RenderLine, RenderString};
use mevi::request::{
    gray_render_color, light_gray_render_color, white_render_color, PictOp, PictureStyle, Request,
};

fn drawer() -> FontDrawer {
    let font = LoadedFont {
        glyph_set: 7,
        line_height: 20,
        glyphs: vec![
            GlyphMetrics { ch: 'a', id: 1, advance: 10 },
            GlyphMetrics { ch: 'b', id: 2, advance: 12 },
            GlyphMetrics { ch: 'x', id: 3, advance: 8 },
        ],
    };
    FontDrawer::new(font, ByteOrder::LsbFirst)
}

fn entry(action: MenuAction, width: i16) -> (MenuAction, RenderString) {
    let line = RenderLine { chunks: vec![], width, height: 10 };
    (action, RenderString::new(vec![line]).pad(5))
}

fn pictures(base: u32) -> PictureIds {
    PictureIds {
        active_pixmap: base,
        active_picture: base + 1,
        inactive_pixmap: base + 2,
        inactive_picture: base + 3,
    }
}

fn three_items() -> (Menu, Vec<Request>) {
    let ids = MenuIds { window: 50, picture: 51, items: vec![pictures(60), pictures(64), pictures(68)] };
    Menu::with_entries(
        vec![
            entry(MenuAction::ToggleFileInfo, 40),
            entry(MenuAction::Fullscreen, 60),
            entry(MenuAction::Exit, 30),
        ],
        ids,
        24,
        13,
        10,
        0,
    )
}

#[test]
fn menu_items_are_stacked() {
    let (menu, reqs) = three_items();
    assert_eq!(menu.rect, Rect::new(0, 0, 70, 60));
    assert!(!menu.visible);
    assert_eq!(menu.selected, Some(0));
    let rects: Vec<Rect> = menu.items.iter().map(|i| i.rect).collect();
    assert_eq!(rects, vec![Rect::new(0, 0, 70, 20), Rect::new(0, 20, 70, 20), Rect::new(0, 40, 70, 20)]);
    assert_eq!(reqs.len(), 13);
    assert_eq!(
        reqs[0],
        Request::CreateWindow {
            depth: 24,
            wid: 50,
            parent: 10,
            width: 70,
            height: 60,
            border_width: 1,
            border_pixel: 0,
        }
    );
    assert_eq!(reqs[5], Request::CreatePixmap { depth: 24, pid: 64, drawable: 50, width: 70, height: 20 });
    assert_eq!(
        reqs[12],
        Request::CreatePicture { pid: 71, drawable: 70, format: 13, style: PictureStyle::Repeat }
    );
}

#[test]
fn item_colors() {
    let (menu, _) = three_items();
    assert_eq!(menu.items[1].get_pict_and_color(true), (65, light_gray_render_color()));
    assert_eq!(menu.items[1].get_pict_and_color(false), (67, gray_render_color()));
    assert_eq!(menu.items[1].srp.active.fg, white_render_color());
}

#[test]
fn next_wraps_from_last_to_first() {
    let (mut menu, _) = three_items();
    menu.selected = Some(2);
    assert!(menu.select_next());
    assert_eq!(menu.selected, Some(0));
    assert!(menu.select_next());
    assert_eq!(menu.selected, Some(1));
}

#[test]
fn prev_wraps_from_first_to_last() {
    let (mut menu, _) = three_items();
    menu.selected = Some(0);
    assert!(menu.select_prev());
    assert_eq!(menu.selected, Some(2));
    assert!(menu.select_prev());
    assert_eq!(menu.selected, Some(1));
}

#[test]
fn next_and_prev_without_selection() {
    let (mut menu, _) = three_items();
    menu.selected = None;
    menu.select_next();
    assert_eq!(menu.selected, Some(0));
    menu.selected = None;
    menu.select_prev();
    assert_eq!(menu.selected, Some(2));
}

#[test]
fn hover_selects_item_under_pointer() {
    let (mut menu, _) = three_items();
    menu.map_window(100, 50);
    assert!(menu.select_at_xy(110, 80));
    assert_eq!(menu.selected, Some(1));
    assert!(!menu.select_at_xy(150, 75));
    assert_eq!(menu.selected, Some(1));
    assert!(menu.select_at_xy(101, 109));
    assert_eq!(menu.selected, Some(2));
}

#[test]
fn hover_below_items_deselects() {
    let (mut menu, _) = three_items();
    menu.map_window(100, 50);
    assert!(menu.select_at_xy(110, 110));
    assert_eq!(menu.selected, None);
    assert!(!menu.select_at_xy(110, 130));
    assert_eq!(menu.selected, None);
}

#[test]
fn hover_on_item_border_changes_nothing() {
    let (mut menu, _) = three_items();
    menu.map_window(100, 50);
    assert!(!menu.select_at_xy(110, 70));
    assert_eq!(menu.selected, Some(0));
}

#[test]
fn deselect_reports_whether_anything_was_selected() {
    let (mut menu, _) = three_items();
    assert!(menu.deselect());
    assert!(!menu.deselect());
    assert_eq!(menu.get_action(), MenuAction::NoAction);
}

#[test]
fn map_and_unmap_requests() {
    let (mut menu, _) = three_items();
    let reqs = menu.map_window(7, 8);
    assert_eq!(
        reqs,
        vec![
            Request::ConfigureWindow { window: 50, x: 7, y: 8 },
            Request::MapWindow { window: 50 },
            Request::Flush,
            Request::CreatePicture { pid: 51, drawable: 50, format: 13, style: PictureStyle::Smooth },
        ]
    );
    assert!(menu.visible);
    assert_eq!(menu.rect, Rect::new(7, 8, 70, 60));
    let reqs = menu.unmap_window();
    assert_eq!(
        reqs,
        vec![Request::FreePicture { picture: 51 }, Request::UnmapWindow { window: 50 }, Request::Flush]
    );
    assert!(!menu.visible);
}

#[test]
fn draw_highlights_selected_item() {
    let d = drawer();
    let (mut menu, _) = three_items();
    assert!(menu.draw(&d).is_empty());
    menu.map_window(0, 0);
    menu.selected = Some(1);
    let reqs = menu.draw(&d);
    assert_eq!(reqs.len(), 7);
    assert_eq!(
        reqs[3],
        Request::FillRectangles {
            op: PictOp::Src,
            dst: 51,
            color: light_gray_render_color(),
            rect: Rect::new(0, 20, 70, 20),
        }
    );
    assert_eq!(
        reqs[2],
        Request::FillRectangles {
            op: PictOp::Src,
            dst: 65,
            color: white_render_color(),
            rect: Rect::new(0, 0, 70, 20),
        }
    );
    assert_eq!(
        reqs[5],
        Request::FillRectangles {
            op: PictOp::Src,
            dst: 51,
            color: gray_render_color(),
            rect: Rect::new(0, 40, 70, 20),
        }
    );
    assert_eq!(reqs[6], Request::Flush);
}

#[test]
fn hidden_menu_ignores_all_but_map() {
    let d = drawer();
    let (mut menu, _) = three_items();
    let (action, reqs) = menu.handle_event(&d, MenuEvent::Select);
    assert_eq!(action, MenuAction::NoAction);
    assert!(reqs.is_empty());
    assert!(!menu.visible);
    let (_, reqs) = menu.handle_event(&d, MenuEvent::Next);
    assert!(reqs.is_empty());
    assert_eq!(menu.selected, Some(0));
    let (action, reqs) = menu.handle_event(&d, MenuEvent::MapAt(3, 4));
    assert_eq!(action, MenuAction::NoAction);
    assert_eq!(reqs.len(), 4 + 7);
    assert!(menu.visible);
}

#[test]
fn select_yields_action_and_hides() {
    let d = drawer();
    let (mut menu, _) = three_items();
    menu.handle_event(&d, MenuEvent::MapAt(0, 0));
    menu.handle_event(&d, MenuEvent::Prev);
    assert_eq!(menu.selected, Some(2));
    let (action, reqs) = menu.handle_event(&d, MenuEvent::Select);
    assert_eq!(action, MenuAction::Exit);
    assert_eq!(reqs.len(), 3);
    assert!(!menu.visible);
}

#[test]
fn hover_event_redraws_only_on_change() {
    let d = drawer();
    let (mut menu, _) = three_items();
    menu.handle_event(&d, MenuEvent::MapAt(0, 0));
    let (_, reqs) = menu.handle_event(&d, MenuEvent::FindHovered(5, 5));
    assert!(reqs.is_empty());
    let (_, reqs) = menu.handle_event(&d, MenuEvent::FindHovered(5, 25));
    assert_eq!(reqs.len(), 7);
    let (_, reqs) = menu.handle_event(&d, MenuEvent::Deselect);
    assert_eq!(reqs.len(), 7);
    let (_, reqs) = menu.handle_event(&d, MenuEvent::Deselect);
    assert!(reqs.is_empty());
}

#[test]
fn standard_menu() {
    let d = drawer();
    let ids = MenuIds { window: 50, picture: 51, items: vec![pictures(60), pictures(64), pictures(68)] };
    let (menu, reqs) = Menu::create(&d, ids, 24, 13, 10, 0);
    let actions: Vec<MenuAction> = menu.items.iter().map(|i| i.action).collect();
    assert_eq!(actions, vec![MenuAction::ToggleFileInfo, MenuAction::Fullscreen, MenuAction::Exit]);
    assert_eq!(menu.items[2].text.lines[0].width, 8);
    assert_eq!(menu.rect, Rect::new(0, 0, 18, 90));
    assert_eq!(reqs.len(), 13);
}
