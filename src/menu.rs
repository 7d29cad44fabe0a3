use vstd::prelude::*;

use crate::compositor::text_requests;
use crate::event::MenuEvent;
use crate::font::{text_width, FontDrawer, MAX_COORD};
use crate::geometry::{point_in, Rect};
use crate::render_string::{box_height, box_width, max_line_width, sum_heights, RenderLine, RenderString};
use crate::request::{
    append_requests, gray_render_color, light_gray_render_color, push_request, views,
    white_render_color, PictureStyle, RenderColor, Request, RequestView,
};

verus! {

/// What choosing a menu item asks the viewer to do.
#[derive(Clone, Copy, Debug, PartialEq, Eq, Structural)]
pub enum MenuAction {
    ToggleFileInfo,
    Fullscreen,
    Exit,
    NoAction,
}

/// A render picture and the colours it is drawn with.
#[derive(Clone, Copy, Debug, PartialEq, Eq, Structural)]
pub struct RenderPicture {
    pub picture: u32,
    pub fg: RenderColor,
    pub bg: RenderColor,
}

/// The two pictures of a menu item: highlighted and normal.
#[derive(Clone, Copy, Debug, PartialEq, Eq, Structural)]
pub struct StatefulRenderPicture {
    pub active: RenderPicture,
    pub inactive: RenderPicture,
}

/// Server ids reserved for the pictures of one menu item.
#[derive(Clone, Copy, Debug, PartialEq, Eq, Structural)]
pub struct PictureIds {
    pub active_pixmap: u32,
    pub active_picture: u32,
    pub inactive_pixmap: u32,
    pub inactive_picture: u32,
}

/// What creating an item's pictures sends.
pub open spec fn picture_requests(
    ids: PictureIds,
    depth: u8,
    format: u32,
    parent: u32,
    width: u16,
    height: u16,
) -> Seq<RequestView> {
    seq![
        RequestView::CreatePixmap {
            depth,
            pid: ids.active_pixmap,
            drawable: parent,
            width,
            height,
        },
        RequestView::CreatePicture {
            pid: ids.active_picture,
            drawable: ids.active_pixmap,
            format,
            style: PictureStyle::Repeat,
        },
        RequestView::CreatePixmap {
            depth,
            pid: ids.inactive_pixmap,
            drawable: parent,
            width,
            height,
        },
        RequestView::CreatePicture {
            pid: ids.inactive_picture,
            drawable: ids.inactive_pixmap,
            format,
            style: PictureStyle::Repeat,
        },
    ]
}

/// The pictures of an item created with `ids`.
pub open spec fn item_pictures(ids: PictureIds) -> StatefulRenderPicture {
    StatefulRenderPicture {
        active: RenderPicture {
            picture: ids.active_picture,
            fg: RenderColor { red: 0xffff, green: 0xffff, blue: 0xffff, alpha: 0xffff },
            bg: RenderColor { red: 0x6666, green: 0x6666, blue: 0x6666, alpha: 0xffff },
        },
        inactive: RenderPicture {
            picture: ids.inactive_picture,
            fg: RenderColor { red: 0xffff, green: 0xffff, blue: 0xffff, alpha: 0xffff },
            bg: RenderColor { red: 0x3b3b, green: 0x3b3b, blue: 0x3b3b, alpha: 0xffff },
        },
    }
}

impl StatefulRenderPicture {
    /// Creates the highlighted and the normal picture of an item, each on a
    /// pixmap of `parent_w` x `h`: white text on light gray, and on gray.
    pub fn new(ids: PictureIds, depth: u8, format: u32, parent_id: u32, parent_w: u16, h: u16) -> (r:
        (Self, Vec<Request>))
        ensures
            r.0 == item_pictures(ids),
            views(r.1@) == picture_requests(ids, depth, format, parent_id, parent_w, h),
    {
        let mut reqs: Vec<Request> = Vec::new();
        push_request(
            &mut reqs,
            Request::CreatePixmap {
                depth,
                pid: ids.active_pixmap,
                drawable: parent_id,
                width: parent_w,
                height: h,
            },
        );
        push_request(
            &mut reqs,
            Request::CreatePicture {
                pid: ids.active_picture,
                drawable: ids.active_pixmap,
                format,
                style: PictureStyle::Repeat,
            },
        );
        push_request(
            &mut reqs,
            Request::CreatePixmap {
                depth,
                pid: ids.inactive_pixmap,
                drawable: parent_id,
                width: parent_w,
                height: h,
            },
        );
        push_request(
            &mut reqs,
            Request::CreatePicture {
                pid: ids.inactive_picture,
                drawable: ids.inactive_pixmap,
                format,
                style: PictureStyle::Repeat,
            },
        );
        proof {
            assert(views(reqs@) =~= picture_requests(ids, depth, format, parent_id, parent_w, h));
        }
        let srp = StatefulRenderPicture {
            active: RenderPicture {
                picture: ids.active_picture,
                fg: white_render_color(),
                bg: light_gray_render_color(),
            },
            inactive: RenderPicture {
                picture: ids.inactive_picture,
                fg: white_render_color(),
                bg: gray_render_color(),
            },
        };
        (srp, reqs)
    }
}

/// One entry of the menu: its text, its place in the menu, its action.
#[derive(Debug)]
pub struct MenuItem {
    pub srp: StatefulRenderPicture,
    pub text: RenderString,
    pub rect: Rect,
    pub action: MenuAction,
}

impl MenuItem {
    /// An item showing `text` at `rect`, with its pictures created as wide
    /// as the menu (`parent_w`) and as high as the text's padded box.
    pub fn new(
        ids: PictureIds,
        depth: u8,
        format: u32,
        parent_id: u32,
        parent_w: u16,
        text: RenderString,
        action: MenuAction,
        rect: Rect,
    ) -> (r: (Self, Vec<Request>))
        requires
            text.wf(),
        ensures
            r.0 == (MenuItem { srp: item_pictures(ids), text, rect, action }),
            views(r.1@) == picture_requests(
                ids,
                depth,
                format,
                parent_id,
                parent_w,
                box_height(text) as u16,
            ),
    {
        let (_, h) = text.box_dimensions();
        let (srp, reqs) = StatefulRenderPicture::new(ids, depth, format, parent_id, parent_w, h);
        (MenuItem { srp, text, action, rect }, reqs)
    }

    /// The picture and background colour the item is drawn with.
    pub fn get_pict_and_color(&self, selected: bool) -> (r: (u32, RenderColor))
        ensures
            selected ==> r == (self.srp.active.picture, RenderColor {
                red: 0x6666,
                green: 0x6666,
                blue: 0x6666,
                alpha: 0xffff,
            }),
            !selected ==> r == (self.srp.inactive.picture, RenderColor {
                red: 0x3b3b,
                green: 0x3b3b,
                blue: 0x3b3b,
                alpha: 0xffff,
            }),
    {
        if selected {
            (self.srp.active.picture, light_gray_render_color())
        } else {
            (self.srp.inactive.picture, gray_render_color())
        }
    }
}

/// Total height of items stacked one below the other.
pub open spec fn stack_height(items: Seq<MenuItem>) -> int
    decreases items.len(),
{
    if items.len() == 0 {
        0
    } else {
        stack_height(items.drop_last()) + items.last().rect.h
    }
}

/// One line of `text` padded by 5 on every side.
fn label(drawer: &FontDrawer, text: &str) -> (r: RenderString)
    requires
        drawer.font.wf(),
    ensures
        r.wf(),
        r.lines@.len() == 1,
        r.lines@[0].width == text_width(drawer.font.glyphs@, text@),
        r.lines@[0].height == drawer.font.line_height,
        r.hpad == 5 && r.vpad == 5 && r.line_gap == 0,
        box_height(r) == drawer.font.line_height + 10,
{
    let line = RenderLine::new(drawer, text);
    let ghost l = line;
    let mut lines: Vec<RenderLine> = Vec::new();
    lines.push(line);
    proof {
        assert(lines@.drop_last() =~= Seq::<RenderLine>::empty());
        assert(sum_heights(lines@.drop_last()) == 0);
        assert(max_line_width(lines@.drop_last()) == 0);
        assert(sum_heights(lines@) == l.height);
        assert(max_line_width(lines@) == l.width);
    }
    RenderString::new(lines).pad(5)
}

/// The last item whose rectangle holds the point (menu-local coordinates).
pub open spec fn hovered(items: Seq<MenuItem>, x: int, y: int) -> Option<int>
    decreases items.len(),
{
    if items.len() == 0 {
        None
    } else if point_in(items.last().rect, x, y) {
        Some(items.len() - 1)
    } else {
        hovered(items.drop_last(), x, y)
    }
}

/// The selection after `Next`: the following item, wrapping to the first.
pub open spec fn next_index(selected: Option<usize>, n: int) -> int {
    match selected {
        Some(i) => if i == n - 1 {
            0
        } else {
            i + 1
        },
        None => 0,
    }
}

/// The selection after `Prev`: the preceding item, wrapping to the last.
pub open spec fn prev_index(selected: Option<usize>, n: int) -> int {
    match selected {
        Some(i) => if i == 0 {
            n - 1
        } else {
            i - 1
        },
        None => n - 1,
    }
}

/// The action of the selected item, or none.
pub open spec fn selected_action(items: Seq<MenuItem>, selected: Option<usize>) -> MenuAction {
    match selected {
        Some(i) => items[i as int].action,
        None => MenuAction::NoAction,
    }
}

/// The requests that draw items `0..k` of the menu.
pub open spec fn items_requests(m: Menu, drawer: FontDrawer, k: int) -> Seq<RequestView>
    decreases k,
{
    if k <= 0 {
        Seq::empty()
    } else {
        let item = m.items@[k - 1];
        let active = m.selected == Some((k - 1) as usize);
        let pict = if active {
            item.srp.active.picture
        } else {
            item.srp.inactive.picture
        };
        let color = if active {
            RenderColor { red: 0x6666, green: 0x6666, blue: 0x6666, alpha: 0xffff }
        } else {
            RenderColor { red: 0x3b3b, green: 0x3b3b, blue: 0x3b3b, alpha: 0xffff }
        };
        items_requests(m, drawer, k - 1) + text_requests(
            drawer.byte_order,
            pict,
            m.pict,
            item.text,
            Some(m.rect.w),
            item.rect.y as int,
            color,
        )
    }
}

/// What redrawing the menu sends: nothing while it is hidden; else every
/// item, highlighted if selected, then a flush.
pub open spec fn draw_requests(m: Menu, drawer: FontDrawer) -> Seq<RequestView> {
    if !m.visible {
        Seq::empty()
    } else {
        items_requests(m, drawer, m.items@.len() as int).push(RequestView::Flush)
    }
}

/// What showing the menu at (`x`, `y`) sends.
pub open spec fn map_requests(m: Menu, x: i16, y: i16) -> Seq<RequestView> {
    seq![
        RequestView::ConfigureWindow { window: m.id, x, y },
        RequestView::MapWindow { window: m.id },
        RequestView::Flush,
        RequestView::CreatePicture {
            pid: m.pict,
            drawable: m.id,
            format: m.pict_format,
            style: PictureStyle::Smooth,
        },
    ]
}

/// What hiding the menu sends.
pub open spec fn unmap_requests(m: Menu) -> Seq<RequestView> {
    seq![
        RequestView::FreePicture { picture: m.pict },
        RequestView::UnmapWindow { window: m.id },
        RequestView::Flush,
    ]
}

/// The overlay menu: its window and picture, items stacked top to bottom,
/// visibility and selection.
#[derive(Debug)]
pub struct Menu {
    pub id: u32,
    pub pict: u32,
    pub pict_format: u32,
    pub visible: bool,
    pub items: Vec<MenuItem>,
    pub selected: Option<usize>,
    pub rect: Rect,
}

/// Selection and redraw-needed after the pointer moved to (`x`, `y`).
pub open spec fn hover_outcome(m: Menu, x: i16, y: i16) -> (Option<usize>, bool) {
    let rx = x - m.rect.x;
    let ry = y - m.rect.y;
    if ry >= m.rect.h {
        (None, m.selected is Some)
    } else {
        match hovered(m.items@, rx, ry) {
            Some(i) => (Some(i as usize), m.selected != Some(i as usize)),
            None => (m.selected, false),
        }
    }
}

/// One transition of the menu: the new menu, the action it yields, what it
/// sends before redrawing, and whether it redraws. A hidden menu only
/// reacts to `MapAt`; a visible one ignores `MapAt`.
pub open spec fn step(m: Menu, e: MenuEvent) -> (Menu, MenuAction, Seq<RequestView>, bool) {
    if !m.visible {
        match e {
            MenuEvent::MapAt(x, y) => (
                Menu { rect: Rect { x, y, ..m.rect }, visible: true, selected: Some(0), ..m },
                MenuAction::NoAction,
                map_requests(m, x, y),
                true,
            ),
            _ => (m, MenuAction::NoAction, Seq::empty(), false),
        }
    } else {
        match e {
            MenuEvent::MapAt(_, _) => (m, MenuAction::NoAction, Seq::empty(), false),
            MenuEvent::Unmap => (
                Menu { visible: false, ..m },
                MenuAction::NoAction,
                unmap_requests(m),
                true,
            ),
            MenuEvent::Next => (
                Menu { selected: Some(next_index(m.selected, m.items@.len() as int) as usize), ..m },
                MenuAction::NoAction,
                Seq::empty(),
                true,
            ),
            MenuEvent::Prev => (
                Menu { selected: Some(prev_index(m.selected, m.items@.len() as int) as usize), ..m },
                MenuAction::NoAction,
                Seq::empty(),
                true,
            ),
            MenuEvent::FindHovered(x, y) => (
                Menu { selected: hover_outcome(m, x, y).0, ..m },
                MenuAction::NoAction,
                Seq::empty(),
                hover_outcome(m, x, y).1,
            ),
            MenuEvent::Select => (
                Menu { visible: false, ..m },
                selected_action(m.items@, m.selected),
                unmap_requests(m),
                true,
            ),
            MenuEvent::Deselect => (
                Menu { selected: None, ..m },
                MenuAction::NoAction,
                Seq::empty(),
                m.selected is Some,
            ),
        }
    }
}

/// Everything one transition sends: its own requests, then the redraw.
pub open spec fn step_requests(m: Menu, drawer: FontDrawer, e: MenuEvent) -> Seq<RequestView> {
    let (n, _, pre, redraw) = step(m, e);
    if redraw {
        pre + draw_requests(n, drawer)
    } else {
        pre
    }
}

/// Server ids reserved for the menu: its window, its picture, and the
/// pictures of each item.
#[derive(Debug)]
pub struct MenuIds {
    pub window: u32,
    pub picture: u32,
    pub items: Vec<PictureIds>,
}

/// The widest padded box of the entries' texts.
pub open spec fn entries_width(es: Seq<(MenuAction, RenderString)>) -> int
    decreases es.len(),
{
    if es.len() == 0 {
        0
    } else {
        let prev = entries_width(es.drop_last());
        if box_width(es.last().1) > prev {
            box_width(es.last().1)
        } else {
            prev
        }
    }
}

/// The padded boxes of the entries' texts stacked.
pub open spec fn entries_height(es: Seq<(MenuAction, RenderString)>) -> int
    decreases es.len(),
{
    if es.len() == 0 {
        0
    } else {
        entries_height(es.drop_last()) + box_height(es.last().1)
    }
}

/// What creating the pictures of `items` sends, the `k`-th with `ids[k]`.
pub open spec fn item_pictures_requests(
    items: Seq<MenuItem>,
    ids: Seq<PictureIds>,
    depth: u8,
    format: u32,
    window: u32,
    width: u16,
) -> Seq<RequestView>
    decreases items.len(),
{
    if items.len() == 0 {
        Seq::empty()
    } else {
        item_pictures_requests(items.drop_last(), ids, depth, format, window, width)
            + picture_requests(ids[items.len() - 1], depth, format, window, width, items.last().rect.h)
    }
}

/// What creating the menu `m` sends: its window, then the items' pictures.
pub open spec fn setup_requests(
    m: Menu,
    ids: Seq<PictureIds>,
    depth: u8,
    format: u32,
    parent: u32,
    border_pixel: u32,
) -> Seq<RequestView> {
    seq![
        RequestView::CreateWindow {
            depth,
            wid: m.id,
            parent,
            width: m.rect.w,
            height: m.rect.h,
            border_width: 1,
            border_pixel,
        },
    ] + item_pictures_requests(m.items@, ids, depth, format, m.id, m.rect.w)
}

proof fn lemma_entries_height_prefix(es: Seq<(MenuAction, RenderString)>, k: int)
    requires
        0 <= k <= es.len(),
        forall|i: int| 0 <= i < es.len() ==> (#[trigger] es[i]).1.wf(),
    ensures
        0 <= entries_height(es.take(k)) <= entries_height(es),
        k < es.len() ==> entries_height(es.take(k + 1)) == entries_height(es.take(k))
            + box_height(es[k].1),
    decreases es.len() - k,
{
    if k < es.len() {
        assert(es.take(k + 1).drop_last() =~= es.take(k));
        lemma_entries_height_prefix(es, k + 1);
    } else {
        assert(es.take(k) =~= es);
    }
    lemma_entries_height_nonneg(es.take(k));
}

proof fn lemma_entries_height_nonneg(es: Seq<(MenuAction, RenderString)>)
    ensures
        entries_height(es) >= 0,
    decreases es.len(),
{
    if es.len() > 0 {
        lemma_entries_height_nonneg(es.drop_last());
    }
}

proof fn lemma_hover_prefix(items: Seq<MenuItem>, i: int, x: int, y: int, n: int)
    requires
        0 <= i < n <= items.len(),
        forall|k: int| 0 <= k < items.len() ==> (#[trigger] items[k]).rect.y == stack_height(
            items.take(k),
        ),
        point_in(items[i].rect, x, y),
    ensures
        hovered(items.take(n), x, y) == Some(i),
    decreases n,
{
    let t = items.take(n);
    assert(t.last() == items[n - 1]);
    if n - 1 > i {
        let a = items[i];
        let b = items[n - 1];
        lemma_stack_step(items, i);
        lemma_stack_mono(items, i + 1, n - 1);
        assert(b.rect.y >= a.rect.y + a.rect.h);
        assert(!point_in(t.last().rect, x, y));
        assert(t.drop_last() =~= items.take(n - 1));
        lemma_hover_prefix(items, i, x, y, n - 1);
    } else {
        assert(t.len() - 1 == i);
    }
}

pub proof fn lemma_stack_step(items: Seq<MenuItem>, k: int)
    requires
        0 <= k < items.len(),
    ensures
        stack_height(items.take(k + 1)) == stack_height(items.take(k)) + items[k].rect.h,
{
    assert(items.take(k + 1).drop_last() =~= items.take(k));
}

pub proof fn lemma_stack_mono(items: Seq<MenuItem>, i: int, j: int)
    requires
        0 <= i <= j <= items.len(),
    ensures
        stack_height(items.take(i)) <= stack_height(items.take(j)),
    decreases j - i,
{
    if i < j {
        lemma_stack_step(items, j - 1);
        lemma_stack_mono(items, i, j - 1);
    }
}

impl Menu {
    /// Items stacked from the top of the menu, as wide as the menu and as
    /// high as their text's box; the selection, if any, names an item.
    pub open spec fn wf(&self) -> bool {
        let items = self.items@;
        &&& items.len() > 0
        &&& (self.selected matches Some(i) ==> i < items.len())
        &&& self.rect.h == stack_height(items)
        &&& self.rect.h <= MAX_COORD
        &&& forall|i: int|
            0 <= i < items.len() ==> {
                let it = #[trigger] items[i];
                &&& it.rect.x == 0
                &&& it.rect.w == self.rect.w
                &&& it.rect.y == stack_height(items.take(i))
                &&& it.rect.h == box_height(it.text)
                &&& it.text.wf()
            }
    }

    pub proof fn lemma_item_bounds(&self, i: int)
        requires
            self.wf(),
            0 <= i < self.items@.len(),
        ensures
            0 <= self.items@[i].rect.y,
            self.items@[i].rect.y + self.items@[i].rect.h <= self.rect.h,
    {
        let items = self.items@;
        lemma_stack_step(items, i);
        lemma_stack_mono(items, 0, i);
        lemma_stack_mono(items, i + 1, items.len() as int);
        assert(items.take(0) =~= Seq::<MenuItem>::empty());
        assert(items.take(items.len() as int) =~= items);
    }

    /// In a well-formed menu the items do not overlap, so a point inside
    /// item `i` hovers exactly that item.
    pub proof fn lemma_hover_unique(&self, i: int, x: int, y: int)
        requires
            self.wf(),
            0 <= i < self.items@.len(),
            point_in(self.items@[i].rect, x, y),
        ensures
            hovered(self.items@, x, y) == Some(i),
            y < self.rect.h,
    {
        self.lemma_item_bounds(i);
        let items = self.items@;
        assert forall|k: int| 0 <= k < items.len() implies (#[trigger] items[k]).rect.y
            == stack_height(items.take(k)) by {}
        lemma_hover_prefix(items, i, x, y, items.len() as int);
        assert(self.items@.take(self.items@.len() as int) =~= self.items@);
    }

    /// Builds a hidden menu of `entries`, stacked top to bottom, each as
    /// high as its text's padded box and all as wide as the widest; the first
    /// item is selected. Creates the menu window under `parent` and the
    /// pictures of every item.
    #[verifier::rlimit(50)]
    pub fn with_entries(
        entries: Vec<(MenuAction, RenderString)>,
        ids: MenuIds,
        depth: u8,
        format: u32,
        parent: u32,
        border_pixel: u32,
    ) -> (r: (Self, Vec<Request>))
        requires
            entries@.len() > 0,
            ids.items@.len() == entries@.len(),
            forall|i: int| 0 <= i < entries@.len() ==> (#[trigger] entries@[i]).1.wf(),
            entries_height(entries@) <= MAX_COORD,
        ensures
            r.0.wf(),
            r.0.id == ids.window && r.0.pict == ids.picture && r.0.pict_format == format,
            !r.0.visible,
            r.0.selected == Some(0usize),
            r.0.rect.x == 0 && r.0.rect.y == 0,
            r.0.rect.w == entries_width(entries@),
            r.0.rect.h == entries_height(entries@),
            r.0.items@.len() == entries@.len(),
            forall|i: int|
                0 <= i < entries@.len() ==> (#[trigger] r.0.items@[i]).action == entries@[i].0
                    && r.0.items@[i].text == entries@[i].1 && r.0.items@[i].srp == item_pictures(
                    ids.items@[i],
                ),
            views(r.1@) == setup_requests(r.0, ids.items@, depth, format, parent, border_pixel),
    {
        let ghost es = entries@;
        let n = entries.len();
        let mut total_width: u16 = 0;
        let mut total_height: u16 = 0;
        let mut i: usize = 0;
        while i < n
            invariant
                n == es.len(),
                es == entries@,
                forall|k: int| 0 <= k < es.len() ==> (#[trigger] es[k]).1.wf(),
                entries_height(es) <= MAX_COORD,
                i <= n,
                total_width == entries_width(es.take(i as int)),
                total_width <= MAX_COORD,
                total_height == entries_height(es.take(i as int)),
            decreases n - i,
        {
            proof {
                lemma_entries_height_prefix(es, i as int);
                lemma_entries_height_prefix(es, i as int + 1);
                assert(es.take(i as int + 1).drop_last() =~= es.take(i as int));
                assert(es[i as int].1.wf());
            }
            let (w, h) = entries[i].1.box_dimensions();
            if w > total_width {
                total_width = w;
            }
            total_height = total_height + h;
            i = i + 1;
        }
        proof {
            assert(es.take(n as int) =~= es);
        }
        let mut reqs: Vec<Request> = Vec::new();
        push_request(
            &mut reqs,
            Request::CreateWindow {
                depth,
                wid: ids.window,
                parent,
                width: total_width,
                height: total_height,
                border_width: 1,
                border_pixel,
            },
        );
        let ghost head = views(reqs@);
        let mut items: Vec<MenuItem> = Vec::new();
        let mut rest = entries;
        let mut offset_y: u16 = 0;
        i = 0;
        proof {
            assert(es.take(0) =~= Seq::<(MenuAction, RenderString)>::empty());
            assert(rest@ =~= es.skip(0));
            assert(head + item_pictures_requests(items@, ids.items@, depth, format, ids.window, total_width) =~= head);
        }
        while i < n
            invariant
                n == es.len(),
                ids.items@.len() == n,
                forall|k: int| 0 <= k < es.len() ==> (#[trigger] es[k]).1.wf(),
                entries_height(es) <= MAX_COORD,
                total_height == entries_height(es),
                i <= n,
                rest@ == es.skip(i as int),
                items@.len() == i,
                offset_y == stack_height(items@),
                offset_y == entries_height(es.take(i as int)),
                forall|k: int|
                    0 <= k < i ==> {
                        let it = #[trigger] items@[k];
                        &&& it.rect.x == 0
                        &&& it.rect.w == total_width
                        &&& it.rect.y == stack_height(items@.take(k))
                        &&& it.rect.h == box_height(it.text)
                        &&& it.text.wf()
                        &&& it.action == es[k].0
                        &&& it.text == es[k].1
                        &&& it.srp == item_pictures(ids.items@[k])
                    },
                views(reqs@) == head + item_pictures_requests(
                    items@,
                    ids.items@,
                    depth,
                    format,
                    ids.window,
                    total_width,
                ),
            decreases n - i,
        {
            proof {
                lemma_entries_height_prefix(es, i as int);
                lemma_entries_height_prefix(es, i as int + 1);
                assert(es.skip(i as int)[0] == es[i as int]);
                assert(es[i as int].1.wf());
            }
            let (action, text) = rest.remove(0);
            proof {
                assert(rest@ =~= es.skip(i as int + 1));
            }
            let (_, h) = text.box_dimensions();
            let (item, preqs) = MenuItem::new(
                ids.items[i],
                depth,
                format,
                ids.window,
                total_width,
                text,
                action,
                Rect::new(0, offset_y as i16, total_width, h),
            );
            let ghost old_items = items@;
            items.push(item);
            proof {
                assert(items@.drop_last() =~= old_items);
                assert forall|k: int| 0 <= k < i implies items@.take(k) =~= old_items.take(k) by {}
                assert(items@.take(i as int) =~= old_items);
            }
            append_requests(&mut reqs, preqs);
            offset_y = offset_y + h;
            i = i + 1;
        }
        let menu = Menu {
            id: ids.window,
            pict: ids.picture,
            pict_format: format,
            visible: false,
            items,
            selected: Some(0),
            rect: Rect::new(0, 0, total_width, total_height),
        };
        proof {
            assert(es.take(n as int) =~= es);
        }
        (menu, reqs)
    }

    /// The menu of the viewer: "Show file info", "Fullscreen" and "Exit",
    /// each a single line padded by 5 (see `with_entries`).
    pub fn create(
        drawer: &FontDrawer,
        ids: MenuIds,
        depth: u8,
        format: u32,
        parent: u32,
        border_pixel: u32,
    ) -> (r: (Self, Vec<Request>))
        requires
            drawer.font.wf(),
            ids.items@.len() == 3,
        ensures
            r.0.wf(),
            r.0.id == ids.window && r.0.pict == ids.picture && r.0.pict_format == format,
            !r.0.visible,
            r.0.selected == Some(0usize),
            r.0.rect.x == 0 && r.0.rect.y == 0,
            r.0.rect.w == entries_width(r.0.items@.map_values(|it: MenuItem| (it.action, it.text))),
            r.0.items@.len() == 3,
            r.0.items@[0].action == MenuAction::ToggleFileInfo,
            r.0.items@[1].action == MenuAction::Fullscreen,
            r.0.items@[2].action == MenuAction::Exit,
            r.0.items@[0].text.lines@[0].width == text_width(drawer.font.glyphs@, "Show file info"@),
            r.0.items@[1].text.lines@[0].width == text_width(drawer.font.glyphs@, "Fullscreen"@),
            r.0.items@[2].text.lines@[0].width == text_width(drawer.font.glyphs@, "Exit"@),
            forall|i: int|
                0 <= i < 3 ==> {
                    let t = (#[trigger] r.0.items@[i]).text;
                    &&& t.lines@.len() == 1
                    &&& t.lines@[0].height == drawer.font.line_height
                    &&& t.hpad == 5 && t.vpad == 5 && t.line_gap == 0
                    &&& r.0.items@[i].srp == item_pictures(ids.items@[i])
                },
            views(r.1@) == setup_requests(r.0, ids.items@, depth, format, parent, border_pixel),
    {
        let mut entries: Vec<(MenuAction, RenderString)> = Vec::new();
        entries.push((MenuAction::ToggleFileInfo, label(drawer, "Show file info")));
        entries.push((MenuAction::Fullscreen, label(drawer, "Fullscreen")));
        entries.push((MenuAction::Exit, label(drawer, "Exit")));
        proof {
            let es = entries@;
            let e2 = es.drop_last();
            let e1 = e2.drop_last();
            let e0 = e1.drop_last();
            assert(e0 =~= Seq::<(MenuAction, RenderString)>::empty());
            assert(entries_height(e0) == 0);
            assert(entries_height(e1) == box_height(es[0].1));
            assert(entries_height(e2) == box_height(es[0].1) + box_height(es[1].1));
            assert(entries_height(es) == box_height(es[0].1) + box_height(es[1].1) + box_height(es[2].1));
        }
        let ghost es = entries@;
        let r = Menu::with_entries(entries, ids, depth, format, parent, border_pixel);
        proof {
            assert(r.0.items@.map_values(|it: MenuItem| (it.action, it.text)) =~= es);
        }
        r
    }

    /// The action of the selected item, or `MenuAction::NoAction`.
    pub fn get_action(&self) -> (r: MenuAction)
        requires
            self.wf(),
        ensures
            r == selected_action(self.items@, self.selected),
    {
        match self.selected {
            Some(i) => self.items[i].action,
            None => MenuAction::NoAction,
        }
    }

    /// Selects the next item, wrapping from the last to the first; always
    /// asks for a redraw.
    pub fn select_next(&mut self) -> (r: bool)
        requires
            old(self).wf(),
        ensures
            *final(self) == (Menu {
                selected: Some(next_index(old(self).selected, old(self).items@.len() as int) as usize),
                ..*old(self)
            }),
            final(self).wf(),
            r,
    {
        match self.selected {
            Some(i) => {
                if i == self.items.len() - 1 {
                    self.selected = Some(0);
                } else {
                    self.selected = Some(i + 1);
                }
            },
            None => {
                self.selected = Some(0);
            },
        }
        true
    }

    /// Selects the previous item, wrapping from the first to the last;
    /// always asks for a redraw.
    pub fn select_prev(&mut self) -> (r: bool)
        requires
            old(self).wf(),
        ensures
            *final(self) == (Menu {
                selected: Some(prev_index(old(self).selected, old(self).items@.len() as int) as usize),
                ..*old(self)
            }),
            final(self).wf(),
            r,
    {
        match self.selected {
            Some(i) => {
                if i == 0 {
                    self.selected = Some(self.items.len() - 1);
                } else {
                    self.selected = Some(i - 1);
                }
            },
            None => {
                self.selected = Some(self.items.len() - 1);
            },
        }
        true
    }

    /// Clears the selection; a redraw is needed only if there was one.
    pub fn deselect(&mut self) -> (r: bool)
        requires
            old(self).wf(),
        ensures
            *final(self) == (Menu { selected: None, ..*old(self) }),
            final(self).wf(),
            r == old(self).selected is Some,
    {
        let needs_redraw = self.selected.is_some();
        self.selected = None;
        needs_redraw
    }

    /// Selects the item under the pointer at (`x`, `y`) in the parent
    /// window's coordinates. Below the items it deselects; over an item it
    /// selects that item and asks for a redraw only if the selection
    /// changed; elsewhere (on an item's border) nothing changes.
    pub fn select_at_xy(&mut self, x: i16, y: i16) -> (r: bool)
        requires
            old(self).wf(),
        ensures
            *final(self) == (Menu { selected: final(self).selected, ..*old(self) }),
            final(self).wf(),
            (final(self).selected, r) == hover_outcome(*old(self), x, y),
            ({
                let rx = x - old(self).rect.x;
                let ry = y - old(self).rect.y;
                &&& ry >= old(self).rect.h ==> final(self).selected == None::<usize> && r == old(
                    self,
                ).selected is Some
                &&& ry < old(self).rect.h ==> match hovered(old(self).items@, rx, ry) {
                    Some(i) => final(self).selected == Some(i as usize) && r == (old(self).selected
                        != Some(i as usize)),
                    None => final(self).selected == old(self).selected && !r,
                }
                &&& forall|i: int|
                    0 <= i < old(self).items@.len() && point_in(
                        #[trigger] old(self).items@[i].rect,
                        rx,
                        ry,
                    ) ==> final(self).selected == Some(i as usize) && r == (old(self).selected
                        != Some(i as usize))
            }),
    {
        let rel_x: i32 = x as i32 - self.rect.x as i32;
        let rel_y: i32 = y as i32 - self.rect.y as i32;
        proof {
            assert forall|i: int|
                0 <= i < self.items@.len() && point_in(
                    #[trigger] self.items@[i].rect,
                    rel_x as int,
                    rel_y as int,
                ) implies hovered(self.items@, rel_x as int, rel_y as int) == Some(i) && rel_y
                < self.rect.h by {
                self.lemma_hover_unique(i, rel_x as int, rel_y as int);
            }
        }
        if rel_y >= self.rect.h as i32 {
            return self.deselect();
        }
        let ghost items = self.items@;
        let mut found: Option<usize> = None;
        let mut i: usize = 0;
        while i < self.items.len()
            invariant
                items == self.items@,
                i <= items.len(),
                found matches Some(k) ==> k < items.len(),
                found == match hovered(items.take(i as int), rel_x as int, rel_y as int) {
                    Some(k) => Some(k as usize),
                    None => None::<usize>,
                },
            decreases items.len() - i,
        {
            proof {
                let t = items.take(i as int + 1);
                assert(t.drop_last() =~= items.take(i as int));
                assert(t.last() == items[i as int]);
            }
            if self.items[i].rect.contains(rel_x, rel_y) {
                found = Some(i);
            }
            i = i + 1;
        }
        proof {
            assert(items.take(items.len() as int) =~= items);
        }
        match found {
            Some(k) => {
                let needs_redraw = match self.selected {
                    Some(s) => s != k,
                    None => true,
                };
                self.selected = Some(k);
                needs_redraw
            },
            None => false,
        }
    }

    /// Shows the menu with its top-left corner at (`x`, `y`), selecting
    /// the first item.
    pub fn map_window(&mut self, x: i16, y: i16) -> (r: Vec<Request>)
        requires
            old(self).wf(),
        ensures
            *final(self) == (Menu {
                rect: Rect { x, y, ..old(self).rect },
                visible: true,
                selected: Some(0),
                ..*old(self)
            }),
            final(self).wf(),
            views(r@) == map_requests(*old(self), x, y),
    {
        let mut reqs: Vec<Request> = Vec::new();
        push_request(&mut reqs, Request::ConfigureWindow { window: self.id, x, y });
        push_request(&mut reqs, Request::MapWindow { window: self.id });
        push_request(&mut reqs, Request::Flush);
        push_request(
            &mut reqs,
            Request::CreatePicture {
                pid: self.pict,
                drawable: self.id,
                format: self.pict_format,
                style: PictureStyle::Smooth,
            },
        );
        proof {
            assert(views(reqs@) =~= map_requests(*old(self), x, y));
        }
        self.rect.x = x;
        self.rect.y = y;
        self.visible = true;
        self.selected = Some(0);
        reqs
    }

    /// Hides the menu and releases its picture.
    pub fn unmap_window(&mut self) -> (r: Vec<Request>)
        requires
            old(self).wf(),
        ensures
            *final(self) == (Menu { visible: false, ..*old(self) }),
            final(self).wf(),
            views(r@) == unmap_requests(*old(self)),
    {
        let mut reqs: Vec<Request> = Vec::new();
        push_request(&mut reqs, Request::FreePicture { picture: self.pict });
        push_request(&mut reqs, Request::UnmapWindow { window: self.id });
        push_request(&mut reqs, Request::Flush);
        proof {
            assert(views(reqs@) =~= unmap_requests(*old(self)));
        }
        self.visible = false;
        reqs
    }

    /// Redraws every item, the selected one highlighted, across the menu's
    /// full width; a hidden menu draws nothing.
    pub fn draw(&self, drawer: &FontDrawer) -> (r: Vec<Request>)
        requires
            self.wf(),
        ensures
            views(r@) == draw_requests(*self, *drawer),
    {
        let mut reqs: Vec<Request> = Vec::new();
        if !self.visible {
            proof {
                assert(views(reqs@) =~= Seq::<RequestView>::empty());
            }
            return reqs;
        }
        let mut i: usize = 0;
        proof {
            assert(views(reqs@) =~= Seq::<RequestView>::empty());
        }
        while i < self.items.len()
            invariant
                self.wf(),
                i <= self.items@.len(),
                views(reqs@) == items_requests(*self, *drawer, i as int),
            decreases self.items@.len() - i,
        {
            let item = &self.items[i];
            let active = match self.selected {
                Some(s) => s == i,
                None => false,
            };
            let (pict, color) = item.get_pict_and_color(active);
            proof {
                self.lemma_item_bounds(i as int);
                assert(self.items@[i as int].text.wf());
            }
            let text = drawer.draw(pict, self.pict, &item.text, Some(self.rect.w), item.rect.y, color);
            append_requests(&mut reqs, text);
            i = i + 1;
        }
        push_request(&mut reqs, Request::Flush);
        reqs
    }

    /// Performs one transition of the menu (see `step`) and redraws it
    /// when the transition asks for it.
    pub fn handle_event(&mut self, drawer: &FontDrawer, e: MenuEvent) -> (r: (
        MenuAction,
        Vec<Request>,
    ))
        requires
            old(self).wf(),
        ensures
            *final(self) == step(*old(self), e).0,
            r.0 == step(*old(self), e).1,
            views(r.1@) == step_requests(*old(self), *drawer, e),
            final(self).wf(),
    {
        let mut action = MenuAction::NoAction;
        let mut reqs: Vec<Request> = Vec::new();
        let needs_redraw = if !self.visible {
            match e {
                MenuEvent::MapAt(x, y) => {
                    reqs = self.map_window(x, y);
                    true
                },
                _ => false,
            }
        } else {
            match e {
                MenuEvent::MapAt(_, _) => false,
                MenuEvent::Unmap => {
                    reqs = self.unmap_window();
                    true
                },
                MenuEvent::Next => self.select_next(),
                MenuEvent::Prev => self.select_prev(),
                MenuEvent::FindHovered(x, y) => self.select_at_xy(x, y),
                MenuEvent::Select => {
                    action = self.get_action();
                    reqs = self.unmap_window();
                    true
                },
                MenuEvent::Deselect => self.deselect(),
            }
        };
        proof {
            assert(views(reqs@) == step(*old(self), e).2);
            assert(*self == step(*old(self), e).0);
        }
        if needs_redraw {
            let redraw = self.draw(drawer);
            append_requests(&mut reqs, redraw);
        }
        (action, reqs)
    }
}

} // verus!
