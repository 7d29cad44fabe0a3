use vstd::prelude::*;

use crate::compositor::text_requests;
use crate::event::MeviEvent;
use crate::font::FontDrawer;
use crate::geometry::{calculate_rects, placement, Rect};
use crate::menu::{step, step_requests, Menu, MenuAction};
use crate::render_string::RenderString;
use crate::request::{
    append_requests, gray_render_color, push_request, views, PictureStyle, RenderColor, Request,
    RequestView,
};

verus! {

/// Width of the window before the server reports its geometry.
pub const INITIAL_SIZE_W: u16 = 600;

/// Height of the window before the server reports its geometry.
pub const INITIAL_SIZE_H: u16 = 800;

/// Pixmaps of the viewer.
#[derive(Clone, Copy, Debug, PartialEq, Eq, Structural)]
pub struct Pms {
    pub image: u32,
    pub buffer: u32,
    pub font_buffer: u32,
    pub background: u32,
}

/// Graphics contexts of the viewer.
#[derive(Clone, Copy, Debug, PartialEq, Eq, Structural)]
pub struct Gcs {
    pub buffer: u32,
    pub background: u32,
    pub tile: u32,
}

/// Render pictures of the viewer.
#[derive(Clone, Copy, Debug, PartialEq, Eq, Structural)]
pub struct Pics {
    pub window: u32,
    pub buffer: u32,
    pub font_buffer: u32,
}

/// Server handles of the viewer and its flags.
#[derive(Clone, Copy, Debug, PartialEq, Eq, Structural)]
pub struct MeviState {
    pub window: u32,
    pub menu: u32,
    pub pms: Pms,
    pub gcs: Gcs,
    pub pics: Pics,
    pub should_redraw: bool,
    pub should_exit: bool,
    pub draw_info: bool,
    pub fullscreen: bool,
}

impl MeviState {
    /// The state at start-up: nothing to redraw or exit for yet, not
    /// fullscreen, and the file information shown if `draw_info`.
    pub fn init(window: u32, menu: u32, pms: Pms, gcs: Gcs, pics: Pics, draw_info: bool) -> (r:
        Self)
        ensures
            r == (MeviState {
                window,
                menu,
                pms,
                gcs,
                pics,
                should_redraw: false,
                should_exit: false,
                draw_info,
                fullscreen: false,
            }),
    {
        MeviState {
            window,
            menu,
            pms,
            gcs,
            pics,
            should_redraw: false,
            should_exit: false,
            draw_info,
            fullscreen: false,
        }
    }
}

/// What the viewer needs of the screen.
#[derive(Clone, Copy, Debug, PartialEq, Eq, Structural)]
pub struct ScreenInfo {
    pub root: u32,
    pub root_depth: u8,
    pub root_pict_format: u32,
}

/// Atoms of the window-manager protocols the viewer takes part in.
#[derive(Clone, Copy, Debug, PartialEq, Eq, Structural)]
pub struct WmAtoms {
    pub wm_delete_window: u32,
    pub net_wm_state: u32,
    pub net_wm_state_fullscreen: u32,
    pub atom: u32,
}

/// The viewer: its handles and flags, the image size, the file information
/// text, the menu, and the window size of the last redraw.
pub struct Mevi {
    pub state: MeviState,
    pub screen: ScreenInfo,
    pub atoms: WmAtoms,
    pub file_info: RenderString,
    pub font_drawer: FontDrawer,
    pub menu: Menu,
    pub image_w: u16,
    pub image_h: u16,
    pub w: u16,
    pub h: u16,
}

/// What drawing the file information into the back buffer sends: nothing
/// when it is hidden.
pub open spec fn file_info_requests(m: Mevi) -> Seq<RequestView> {
    if m.state.draw_info {
        seq![
            RequestView::CreatePicture {
                pid: m.state.pics.buffer,
                drawable: m.state.pms.buffer,
                format: m.screen.root_pict_format,
                style: PictureStyle::Repeat,
            },
        ] + text_requests(
            m.font_drawer.byte_order,
            m.state.pics.font_buffer,
            m.state.pics.buffer,
            m.file_info,
            None,
            0,
            RenderColor { red: 0x3b3b, green: 0x3b3b, blue: 0x3b3b, alpha: 0xffff },
        ) + seq![RequestView::FreePicture { picture: m.state.pics.buffer }]
    } else {
        Seq::empty()
    }
}

/// What one redraw in a window of `window_w` x `window_h` sends: allocate the
/// back buffer, tile it, copy the visible part of the image into it, draw
/// the file information, copy the buffer to the window, release it, flush.
pub open spec fn redraw_requests(m: Mevi, window_w: u16, window_h: u16) -> Seq<RequestView> {
    let (child, parent) = placement(window_w, window_h, m.image_w, m.image_h);
    let buffer = m.state.pms.buffer;
    seq![
        RequestView::CreatePixmap {
            depth: m.screen.root_depth,
            pid: buffer,
            drawable: m.screen.root,
            width: window_w,
            height: window_h,
        },
        RequestView::FillRectangle {
            drawable: buffer,
            gc: m.state.gcs.tile,
            rect: Rect { x: 0, y: 0, w: window_w, h: window_h },
        },
        RequestView::CopyArea {
            src: m.state.pms.image,
            dst: buffer,
            gc: m.state.gcs.buffer,
            src_x: child.x,
            src_y: child.y,
            dst_x: parent.x,
            dst_y: parent.y,
            width: child.w,
            height: child.h,
        },
    ] + file_info_requests(m) + seq![
        RequestView::CopyArea {
            src: buffer,
            dst: m.state.window,
            gc: m.state.gcs.buffer,
            src_x: 0,
            src_y: 0,
            dst_x: 0,
            dst_y: 0,
            width: window_w,
            height: window_h,
        },
        RequestView::FreePixmap { pixmap: buffer },
        RequestView::Flush,
    ]
}

/// The viewer after a redraw in a window of `window_w` x `window_h`.
pub open spec fn after_redraw(m: Mevi, window_w: u16, window_h: u16) -> Mevi {
    Mevi {
        state: MeviState { should_redraw: false, ..m.state },
        w: window_w,
        h: window_h,
        ..m
    }
}

/// Redrawing twice with the same window size and nothing else changed in
/// between sends the same requests both times, so the window shows the
/// same picture.
pub proof fn lemma_redraw_idempotent(m: Mevi, window_w: u16, window_h: u16)
    ensures
        redraw_requests(after_redraw(m, window_w, window_h), window_w, window_h)
            == redraw_requests(m, window_w, window_h),
{
}

/// A redraw releases what it allocates: it starts by creating the back
/// buffer and ends by freeing it and flushing; the picture it makes on the
/// buffer for the file information is freed before the buffer is copied out.
pub proof fn lemma_redraw_releases_buffer(m: Mevi, window_w: u16, window_h: u16)
    ensures
        ({
            let r = redraw_requests(m, window_w, window_h);
            &&& r.len() >= 6
            &&& r[0] == RequestView::CreatePixmap {
                depth: m.screen.root_depth,
                pid: m.state.pms.buffer,
                drawable: m.screen.root,
                width: window_w,
                height: window_h,
            }
            &&& r[r.len() - 2] == RequestView::FreePixmap { pixmap: m.state.pms.buffer }
            &&& r[r.len() - 1] == RequestView::Flush
            &&& m.state.draw_info ==> r[3] == RequestView::CreatePicture {
                pid: m.state.pics.buffer,
                drawable: m.state.pms.buffer,
                format: m.screen.root_pict_format,
                style: PictureStyle::Repeat,
            } && r[r.len() - 4] == RequestView::FreePicture { picture: m.state.pics.buffer }
        }),
{
    let r = redraw_requests(m, window_w, window_h);
    let info = file_info_requests(m);
    let n = r.len();
    assert(n == 6 + info.len());
    assert(r[n - 2] == RequestView::FreePixmap { pixmap: m.state.pms.buffer });
    if m.state.draw_info {
        assert(info[0] == r[3]);
        assert(info[info.len() - 1] == r[n - 4]);
    }
}

/// What switching fullscreen sends: the window is unmapped, its state
/// property set to fullscreen or cleared, and mapped again.
pub open spec fn fullscreen_requests(m: Mevi) -> Seq<RequestView> {
    seq![
        RequestView::UnmapWindow { window: m.state.window },
        RequestView::ChangeProperty32 {
            window: m.state.window,
            property: m.atoms.net_wm_state,
            type_: m.atoms.atom,
            data: if m.state.fullscreen {
                Seq::empty()
            } else {
                seq![m.atoms.net_wm_state_fullscreen]
            },
        },
        RequestView::MapWindow { window: m.state.window },
        RequestView::Flush,
    ]
}

/// The viewer with the file information shown or hidden, and a redraw asked.
pub open spec fn toggled_info(m: Mevi) -> Mevi {
    Mevi { state: MeviState { draw_info: !m.state.draw_info, should_redraw: true, ..m.state }, ..m }
}

/// The viewer switched in or out of fullscreen.
pub open spec fn toggled_fullscreen(m: Mevi) -> Mevi {
    Mevi { state: MeviState { fullscreen: !m.state.fullscreen, ..m.state }, ..m }
}

/// The viewer about to exit.
pub open spec fn exiting(m: Mevi) -> Mevi {
    Mevi { state: MeviState { should_exit: true, ..m.state }, ..m }
}

/// How the viewer reacts to an event: the new viewer and what it sends.
/// Menu events go to the menu, whose chosen action then applies.
pub open spec fn dispatch(m: Mevi, e: MeviEvent) -> (Mevi, Seq<RequestView>) {
    match e {
        MeviEvent::DrawImage => (
            Mevi { state: MeviState { should_redraw: true, ..m.state }, ..m },
            Seq::empty(),
        ),
        MeviEvent::ToggleFileInfo => (toggled_info(m), Seq::empty()),
        MeviEvent::ToggleFullscreen => (toggled_fullscreen(m), fullscreen_requests(m)),
        MeviEvent::Menu(me) => {
            let (menu, action, _, _) = step(m.menu, me);
            let reqs = step_requests(m.menu, m.font_drawer, me);
            let m1 = Mevi { menu, ..m };
            match action {
                MenuAction::ToggleFileInfo => (toggled_info(m1), reqs),
                MenuAction::Fullscreen => (toggled_fullscreen(m1), reqs + fullscreen_requests(m1)),
                MenuAction::Exit => (exiting(m1), reqs),
                MenuAction::NoAction => (m1, reqs),
            }
        },
        MeviEvent::Exit => (exiting(m), Seq::empty()),
        MeviEvent::Idle => (m, Seq::empty()),
        MeviEvent::Error(_) => (m, Seq::empty()),
    }
}

impl Mevi {
    /// The menu and the file information are well formed.
    pub open spec fn wf(&self) -> bool {
        &&& self.menu.wf()
        &&& self.file_info.wf()
    }

    /// The viewer at start-up, its window assumed to be of the initial size.
    pub fn init(
        state: MeviState,
        screen: ScreenInfo,
        atoms: WmAtoms,
        file_info: RenderString,
        font_drawer: FontDrawer,
        menu: Menu,
        image_w: u16,
        image_h: u16,
    ) -> (r: Self)
        ensures
            r == (Mevi {
                state,
                screen,
                atoms,
                file_info,
                font_drawer,
                menu,
                image_w,
                image_h,
                w: INITIAL_SIZE_W,
                h: INITIAL_SIZE_H,
            }),
    {
        Mevi {
            state,
            screen,
            atoms,
            file_info,
            font_drawer,
            menu,
            image_w,
            image_h,
            w: INITIAL_SIZE_W,
            h: INITIAL_SIZE_H,
        }
    }

    /// Places the image in a window of `window_w` x `window_h` (see
    /// `calculate_rects`) and records that size; returns (child, parent).
    pub fn calculate_rects(&mut self, window_w: u16, window_h: u16) -> (r: (Rect, Rect))
        ensures
            r == placement(window_w, window_h, old(self).image_w, old(self).image_h),
            *final(self) == (Mevi { w: window_w, h: window_h, ..*old(self) }),
    {
        let rects = calculate_rects(window_w, window_h, self.image_w, self.image_h);
        self.w = rects.1.w;
        self.h = rects.1.h;
        rects
    }

    /// Tiles the whole back buffer with the background pattern.
    pub fn fill_bg(&self) -> (r: Request)
        ensures
            r@ == (RequestView::FillRectangle {
                drawable: self.state.pms.buffer,
                gc: self.state.gcs.tile,
                rect: Rect { x: 0, y: 0, w: self.w, h: self.h },
            }),
    {
        Request::FillRectangle {
            drawable: self.state.pms.buffer,
            gc: self.state.gcs.tile,
            rect: Rect::new(0, 0, self.w, self.h),
        }
    }

    /// Draws the file information into the back buffer, if it is shown.
    pub fn draw_file_info(&self) -> (r: Vec<Request>)
        requires
            self.wf(),
        ensures
            views(r@) == file_info_requests(*self),
    {
        let mut reqs: Vec<Request> = Vec::new();
        if self.state.draw_info {
            push_request(
                &mut reqs,
                Request::CreatePicture {
                    pid: self.state.pics.buffer,
                    drawable: self.state.pms.buffer,
                    format: self.screen.root_pict_format,
                    style: PictureStyle::Repeat,
                },
            );
            let text = self.font_drawer.draw(
                self.state.pics.font_buffer,
                self.state.pics.buffer,
                &self.file_info,
                None,
                0,
                gray_render_color(),
            );
            append_requests(&mut reqs, text);
            push_request(&mut reqs, Request::FreePicture { picture: self.state.pics.buffer });
        }
        proof {
            assert(views(reqs@) =~= file_info_requests(*self));
        }
        reqs
    }

    /// Copies the sampled part of the image (`child_rect`) to its place in
    /// the back buffer (`parent_rect`), then draws the file information.
    pub fn fill_back_buffer(&self, parent_rect: Rect, child_rect: Rect) -> (r: Vec<Request>)
        requires
            self.wf(),
        ensures
            views(r@) == seq![
                RequestView::CopyArea {
                    src: self.state.pms.image,
                    dst: self.state.pms.buffer,
                    gc: self.state.gcs.buffer,
                    src_x: child_rect.x,
                    src_y: child_rect.y,
                    dst_x: parent_rect.x,
                    dst_y: parent_rect.y,
                    width: child_rect.w,
                    height: child_rect.h,
                },
            ] + file_info_requests(*self),
    {
        let mut reqs: Vec<Request> = Vec::new();
        push_request(
            &mut reqs,
            Request::CopyArea {
                src: self.state.pms.image,
                dst: self.state.pms.buffer,
                gc: self.state.gcs.buffer,
                src_x: child_rect.x,
                src_y: child_rect.y,
                dst_x: parent_rect.x,
                dst_y: parent_rect.y,
                width: child_rect.w,
                height: child_rect.h,
            },
        );
        let info = self.draw_file_info();
        append_requests(&mut reqs, info);
        reqs
    }

    /// Copies the whole back buffer onto the window.
    pub fn copy_to_window(&self) -> (r: Request)
        ensures
            r@ == (RequestView::CopyArea {
                src: self.state.pms.buffer,
                dst: self.state.window,
                gc: self.state.gcs.buffer,
                src_x: 0,
                src_y: 0,
                dst_x: 0,
                dst_y: 0,
                width: self.w,
                height: self.h,
            }),
    {
        Request::CopyArea {
            src: self.state.pms.buffer,
            dst: self.state.window,
            gc: self.state.gcs.buffer,
            src_x: 0,
            src_y: 0,
            dst_x: 0,
            dst_y: 0,
            width: self.w,
            height: self.h,
        }
    }

    /// One full redraw for a window of `window_w` x `window_h` (see
    /// `redraw_requests`); the back buffer is released within the same
    /// requests, and the redraw request is then cleared.
    pub fn draw_image(&mut self, window_w: u16, window_h: u16) -> (r: Vec<Request>)
        requires
            old(self).wf(),
        ensures
            views(r@) == redraw_requests(*old(self), window_w, window_h),
            *final(self) == after_redraw(*old(self), window_w, window_h),
            final(self).wf(),
    {
        let (child, parent) = self.calculate_rects(window_w, window_h);
        let mut reqs: Vec<Request> = Vec::new();
        push_request(
            &mut reqs,
            Request::CreatePixmap {
                depth: self.screen.root_depth,
                pid: self.state.pms.buffer,
                drawable: self.screen.root,
                width: self.w,
                height: self.h,
            },
        );
        push_request(&mut reqs, self.fill_bg());
        let back = self.fill_back_buffer(parent, child);
        append_requests(&mut reqs, back);
        push_request(&mut reqs, self.copy_to_window());
        push_request(&mut reqs, Request::FreePixmap { pixmap: self.state.pms.buffer });
        push_request(&mut reqs, Request::Flush);
        proof {
            assert(views(reqs@) =~= redraw_requests(*old(self), window_w, window_h));
        }
        self.state.should_redraw = false;
        reqs
    }

    /// Applies one event (see `dispatch`) and returns what it sends. A
    /// redraw it asks for is left to `draw_image`, once the window's size is
    /// known; a server error changes nothing.
    pub fn on_event(&mut self, e: &MeviEvent) -> (r: Vec<Request>)
        requires
            old(self).wf(),
        ensures
            *final(self) == dispatch(*old(self), *e).0,
            views(r@) == dispatch(*old(self), *e).1,
            final(self).wf(),
    {
        let mut reqs: Vec<Request> = Vec::new();
        proof {
            assert(views(reqs@) =~= Seq::<RequestView>::empty());
        }
        match e {
            MeviEvent::DrawImage => {
                self.state.should_redraw = true;
            },
            MeviEvent::ToggleFileInfo => {
                self.toggle_show_file_info();
            },
            MeviEvent::ToggleFullscreen => {
                reqs = self.toggle_fullscreen();
            },
            MeviEvent::Menu(menu_evt) => {
                let (action, menu_reqs) = self.menu.handle_event(&self.font_drawer, *menu_evt);
                reqs = menu_reqs;
                match action {
                    MenuAction::ToggleFileInfo => {
                        self.toggle_show_file_info();
                    },
                    MenuAction::Fullscreen => {
                        let more = self.toggle_fullscreen();
                        append_requests(&mut reqs, more);
                    },
                    MenuAction::Exit => {
                        self.state.should_exit = true;
                    },
                    MenuAction::NoAction => {},
                }
            },
            MeviEvent::Exit => {
                self.state.should_exit = true;
            },
            MeviEvent::Idle => {},
            MeviEvent::Error(_) => {},
        }
        reqs
    }

    /// Shows or hides the file information, and asks for a redraw.
    pub fn toggle_show_file_info(&mut self)
        ensures
            *final(self) == (Mevi {
                state: MeviState {
                    draw_info: !old(self).state.draw_info,
                    should_redraw: true,
                    ..old(self).state
                },
                ..*old(self)
            }),
    {
        self.state.draw_info = !self.state.draw_info;
        self.state.should_redraw = true;
    }

    /// Switches the window in or out of fullscreen (see
    /// `fullscreen_requests`).
    pub fn toggle_fullscreen(&mut self) -> (r: Vec<Request>)
        ensures
            views(r@) == fullscreen_requests(*old(self)),
            *final(self) == (Mevi {
                state: MeviState { fullscreen: !old(self).state.fullscreen, ..old(self).state },
                ..*old(self)
            }),
    {
        let wid = self.state.window;
        let mut data: Vec<u32> = Vec::new();
        if !self.state.fullscreen {
            data.push(self.atoms.net_wm_state_fullscreen);
        }
        proof {
            if !self.state.fullscreen {
                assert(data@ =~= seq![self.atoms.net_wm_state_fullscreen]);
            } else {
                assert(data@ =~= Seq::<u32>::empty());
            }
        }
        let mut reqs: Vec<Request> = Vec::new();
        push_request(&mut reqs, Request::UnmapWindow { window: wid });
        push_request(
            &mut reqs,
            Request::ChangeProperty32 {
                window: wid,
                property: self.atoms.net_wm_state,
                type_: self.atoms.atom,
                data,
            },
        );
        push_request(&mut reqs, Request::MapWindow { window: wid });
        push_request(&mut reqs, Request::Flush);
        proof {
            assert(views(reqs@) =~= fullscreen_requests(*old(self)));
        }
        self.state.fullscreen = !self.state.fullscreen;
        reqs
    }
}

} // verus!
