use vstd::prelude::*;

use crate::geometry::Rect;

verus! {

/// A colour of the render extension, 16 bits per channel.
#[derive(Clone, Copy, Debug, PartialEq, Eq, Structural)]
pub struct RenderColor {
    pub red: u16,
    pub green: u16,
    pub blue: u16,
    pub alpha: u16,
}

pub fn gray_render_color() -> (c: RenderColor)
    ensures
        c == (RenderColor { red: 0x3b3b, green: 0x3b3b, blue: 0x3b3b, alpha: 0xffff }),
{
    RenderColor { red: 0x3b3b, green: 0x3b3b, blue: 0x3b3b, alpha: 0xffff }
}

pub fn light_gray_render_color() -> (c: RenderColor)
    ensures
        c == (RenderColor { red: 0x6666, green: 0x6666, blue: 0x6666, alpha: 0xffff }),
{
    RenderColor { red: 0x6666, green: 0x6666, blue: 0x6666, alpha: 0xffff }
}

pub fn white_render_color() -> (c: RenderColor)
    ensures
        c == (RenderColor { red: 0xffff, green: 0xffff, blue: 0xffff, alpha: 0xffff }),
{
    RenderColor { red: 0xffff, green: 0xffff, blue: 0xffff, alpha: 0xffff }
}

/// Compositing operator of a render request.
#[derive(Clone, Copy, Debug, PartialEq, Eq, Structural)]
pub enum PictOp {
    Src,
    Over,
}

/// How a render picture is created: repeating its drawable (a tile), or
/// with smooth, imprecise polygon edges (a text target).
#[derive(Clone, Copy, Debug, PartialEq, Eq, Structural)]
pub enum PictureStyle {
    Repeat,
    Smooth,
}

/// One request to the display server. Handles are the protocol's 32-bit ids.
#[derive(Debug, PartialEq, Eq)]
pub enum Request {
    CreateWindow {
        depth: u8,
        wid: u32,
        parent: u32,
        width: u16,
        height: u16,
        border_width: u16,
        border_pixel: u32,
    },
    ConfigureWindow { window: u32, x: i16, y: i16 },
    MapWindow { window: u32 },
    UnmapWindow { window: u32 },
    ChangeProperty32 { window: u32, property: u32, type_: u32, data: Vec<u32> },
    CreatePixmap { depth: u8, pid: u32, drawable: u32, width: u16, height: u16 },
    FreePixmap { pixmap: u32 },
    FillRectangle { drawable: u32, gc: u32, rect: Rect },
    CopyArea {
        src: u32,
        dst: u32,
        gc: u32,
        src_x: i16,
        src_y: i16,
        dst_x: i16,
        dst_y: i16,
        width: u16,
        height: u16,
    },
    CreatePicture { pid: u32, drawable: u32, format: u32, style: PictureStyle },
    FreePicture { picture: u32 },
    FillRectangles { op: PictOp, dst: u32, color: RenderColor, rect: Rect },
    CompositeGlyphs32 { op: PictOp, src: u32, dst: u32, glyphset: u32, glyphcmds: Vec<u8> },
    Flush,
}

/// A request as a mathematical value: its byte and word lists as sequences.
pub enum RequestView {
    CreateWindow {
        depth: u8,
        wid: u32,
        parent: u32,
        width: u16,
        height: u16,
        border_width: u16,
        border_pixel: u32,
    },
    ConfigureWindow { window: u32, x: i16, y: i16 },
    MapWindow { window: u32 },
    UnmapWindow { window: u32 },
    ChangeProperty32 { window: u32, property: u32, type_: u32, data: Seq<u32> },
    CreatePixmap { depth: u8, pid: u32, drawable: u32, width: u16, height: u16 },
    FreePixmap { pixmap: u32 },
    FillRectangle { drawable: u32, gc: u32, rect: Rect },
    CopyArea {
        src: u32,
        dst: u32,
        gc: u32,
        src_x: i16,
        src_y: i16,
        dst_x: i16,
        dst_y: i16,
        width: u16,
        height: u16,
    },
    CreatePicture { pid: u32, drawable: u32, format: u32, style: PictureStyle },
    FreePicture { picture: u32 },
    FillRectangles { op: PictOp, dst: u32, color: RenderColor, rect: Rect },
    CompositeGlyphs32 { op: PictOp, src: u32, dst: u32, glyphset: u32, glyphcmds: Seq<u8> },
    Flush,
}

impl View for Request {
    type V = RequestView;

    open spec fn view(&self) -> RequestView {
        match self {
            Request::CreateWindow {
                depth,
                wid,
                parent,
                width,
                height,
                border_width,
                border_pixel,
            } => RequestView::CreateWindow {
                depth: *depth,
                wid: *wid,
                parent: *parent,
                width: *width,
                height: *height,
                border_width: *border_width,
                border_pixel: *border_pixel,
            },
            Request::ConfigureWindow { window, x, y } => RequestView::ConfigureWindow {
                window: *window,
                x: *x,
                y: *y,
            },
            Request::MapWindow { window } => RequestView::MapWindow { window: *window },
            Request::UnmapWindow { window } => RequestView::UnmapWindow { window: *window },
            Request::ChangeProperty32 { window, property, type_, data } =>
                RequestView::ChangeProperty32 {
                window: *window,
                property: *property,
                type_: *type_,
                data: data@,
            },
            Request::CreatePixmap { depth, pid, drawable, width, height } =>
                RequestView::CreatePixmap {
                depth: *depth,
                pid: *pid,
                drawable: *drawable,
                width: *width,
                height: *height,
            },
            Request::FreePixmap { pixmap } => RequestView::FreePixmap { pixmap: *pixmap },
            Request::FillRectangle { drawable, gc, rect } => RequestView::FillRectangle {
                drawable: *drawable,
                gc: *gc,
                rect: *rect,
            },
            Request::CopyArea { src, dst, gc, src_x, src_y, dst_x, dst_y, width, height } =>
                RequestView::CopyArea {
                src: *src,
                dst: *dst,
                gc: *gc,
                src_x: *src_x,
                src_y: *src_y,
                dst_x: *dst_x,
                dst_y: *dst_y,
                width: *width,
                height: *height,
            },
            Request::CreatePicture { pid, drawable, format, style } => RequestView::CreatePicture {
                pid: *pid,
                drawable: *drawable,
                format: *format,
                style: *style,
            },
            Request::FreePicture { picture } => RequestView::FreePicture { picture: *picture },
            Request::FillRectangles { op, dst, color, rect } => RequestView::FillRectangles {
                op: *op,
                dst: *dst,
                color: *color,
                rect: *rect,
            },
            Request::CompositeGlyphs32 { op, src, dst, glyphset, glyphcmds } =>
                RequestView::CompositeGlyphs32 {
                op: *op,
                src: *src,
                dst: *dst,
                glyphset: *glyphset,
                glyphcmds: glyphcmds@,
            },
            Request::Flush => RequestView::Flush,
        }
    }
}

/// The mathematical value of a list of requests.
pub open spec fn views(s: Seq<Request>) -> Seq<RequestView> {
    s.map_values(|q: Request| q@)
}

/// Appends `tail` to `reqs`.
pub fn append_requests(reqs: &mut Vec<Request>, tail: Vec<Request>)
    ensures
        views(final(reqs)@) == views(old(reqs)@) + views(tail@),
{
    let ghost tail_view = tail@;
    let mut tail = tail;
    reqs.append(&mut tail);
    proof {
        assert(views(reqs@) =~= views(old(reqs)@) + views(tail_view));
    }
}

} // verus!

verus! {

/// Appends one request to `reqs`.
pub fn push_request(reqs: &mut Vec<Request>, q: Request)
    ensures
        views(final(reqs)@) == views(old(reqs)@).push(q@),
{
    let ghost qv = q@;
    reqs.push(q);
    proof {
        assert(views(reqs@) =~= views(old(reqs)@).push(qv));
    }
}

} // verus!
