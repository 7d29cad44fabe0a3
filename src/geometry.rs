use vstd::prelude::*;

verus! {

/// A placement or clipping rectangle in protocol coordinates.
#[derive(Clone, Copy, Debug, PartialEq, Eq, Structural)]
pub struct Rect {
    pub x: i16,
    pub y: i16,
    pub w: u16,
    pub h: u16,
}

/// Whether the point lies strictly inside the rectangle (its border excluded).
pub open spec fn point_in(r: Rect, x: int, y: int) -> bool {
    &&& r.x < x < r.x + r.w
    &&& r.y < y < r.y + r.h
}

/// Offset of an image of extent `image` centred in a window of extent `window`.
pub open spec fn centering_offset(window: u16, image: u16) -> int {
    window as int / 2 - image as int / 2
}

pub open spec fn abs(v: int) -> int {
    if v < 0 {
        -v
    } else {
        v
    }
}

/// One axis of a placement: (child origin, parent origin, child extent).
pub open spec fn axis_placement(window: u16, image: u16) -> (int, int, int) {
    let offset = centering_offset(window, image);
    if image > window {
        (abs(offset), 0, window as int)
    } else {
        (0, offset, image as int)
    }
}

/// The child and parent rects of an image centred and clipped in a window.
pub open spec fn placement(window_w: u16, window_h: u16, image_w: u16, image_h: u16) -> (Rect, Rect) {
    let (cx, px, cw) = axis_placement(window_w, image_w);
    let (cy, py, ch) = axis_placement(window_h, image_h);
    (
        Rect { x: cx as i16, y: cy as i16, w: cw as u16, h: ch as u16 },
        Rect { x: px as i16, y: py as i16, w: window_w, h: window_h },
    )
}

impl Rect {
    pub fn new(x: i16, y: i16, w: u16, h: u16) -> (r: Self)
        ensures
            r == (Rect { x, y, w, h }),
    {
        Self { x, y, w, h }
    }

    pub fn contains(&self, x: i32, y: i32) -> (r: bool)
        ensures
            r == point_in(*self, x as int, y as int),
    {
        let over_x = x > self.x as i32 && x < self.x as i32 + self.w as i32;
        let over_y = y > self.y as i32 && y < self.y as i32 + self.h as i32;
        over_x && over_y
    }
}

/// Places one axis: returns (child origin, parent origin, child extent).
fn place_axis(window: u16, image: u16) -> (r: (i16, i16, u16))
    ensures
        image > window ==> r.0 == abs(centering_offset(window, image)) && r.1 == 0 && r.2
            == window,
        image <= window ==> r.0 == 0 && r.1 == centering_offset(window, image) && r.2 == image,
{
    let offset: i16 = (window / 2) as i16 - (image / 2) as i16;
    if image > window {
        let magnitude: i16 = if offset < 0 {
            -offset
        } else {
            offset
        };
        (magnitude, 0, window)
    } else {
        (0, offset, image)
    }
}

/// Computes where an image of `image_w` x `image_h` goes in a window of
/// `window_w` x `window_h`, centred and clipped to the window: the child rect
/// is the region of the image to sample, the parent rect its placement.
pub fn calculate_rects(window_w: u16, window_h: u16, image_w: u16, image_h: u16) -> (r: (
    Rect,
    Rect,
))
    ensures
        r == placement(window_w, window_h, image_w, image_h),
        ({
            let (child, parent) = r;
            &&& image_w > window_w ==> child.x == abs(centering_offset(window_w, image_w))
                && parent.x == 0 && child.w == window_w
            &&& image_w <= window_w ==> child.x == 0 && parent.x == centering_offset(
                window_w,
                image_w,
            ) && child.w == image_w
            &&& image_h > window_h ==> child.y == abs(centering_offset(window_h, image_h))
                && parent.y == 0 && child.h == window_h
            &&& image_h <= window_h ==> child.y == 0 && parent.y == centering_offset(
                window_h,
                image_h,
            ) && child.h == image_h
            &&& parent.w == window_w && parent.h == window_h
        }),
{
    let (child_x, parent_x, child_w) = place_axis(window_w, image_w);
    let (child_y, parent_y, child_h) = place_axis(window_h, image_h);
    (Rect::new(child_x, child_y, child_w, child_h), Rect::new(parent_x, parent_y, window_w, window_h))
}

} // verus!
