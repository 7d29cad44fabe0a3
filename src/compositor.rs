use vstd::prelude::*;

use crate::font::{glyph_element, ByteOrder, FontDrawer, FontEncodedChunk, MAX_COORD};
use crate::geometry::Rect;
use crate::render_string::{
    box_height, box_width, chunk_width_sum, lemma_chunk_width_prefix, lemma_chunk_width_step,
    lemma_sum_heights_prefix, lemma_sum_heights_step, sum_heights, RenderLine, RenderString,
};
use crate::request::{
    push_request, views, white_render_color, PictOp, RenderColor, Request, RequestView,
};

verus! {

/// The composite requests of one line's runs: each run starts where the
/// previous one ended, the first at `x0`, all on the baseline `y`.
pub open spec fn run_requests(
    order: ByteOrder,
    src: u32,
    dst: u32,
    chunks: Seq<FontEncodedChunk>,
    x0: int,
    y: int,
) -> Seq<RequestView>
    decreases chunks.len(),
{
    if chunks.len() == 0 {
        Seq::empty()
    } else {
        run_requests(order, src, dst, chunks.drop_last(), x0, y).push(
            RequestView::CompositeGlyphs32 {
                op: PictOp::Over,
                src,
                dst,
                glyphset: chunks.last().glyph_set,
                glyphcmds: glyph_element(
                    x0 + chunk_width_sum(chunks.drop_last()),
                    y,
                    chunks.last().glyph_ids@,
                    order,
                ),
            },
        )
    }
}

/// Where line `k` is drawn: below the lines before it and their gaps.
pub open spec fn line_top(lines: Seq<RenderLine>, gap: u16, y: int, k: int) -> int {
    y + sum_heights(lines.take(k)) + k * gap
}

/// The composite requests of all lines, each line starting at `hpad`.
pub open spec fn lines_requests(
    order: ByteOrder,
    src: u32,
    dst: u32,
    lines: Seq<RenderLine>,
    hpad: u16,
    gap: u16,
    y: int,
) -> Seq<RequestView>
    decreases lines.len(),
{
    if lines.len() == 0 {
        Seq::empty()
    } else {
        lines_requests(order, src, dst, lines.drop_last(), hpad, gap, y) + run_requests(
            order,
            src,
            dst,
            lines.last().chunks@,
            hpad as int,
            line_top(lines, gap, y, lines.len() - 1),
        )
    }
}

/// Width of the filled boxes: the caller's width if given, else the box's.
pub open spec fn fill_width(s: RenderString, alt_width: Option<u16>) -> int {
    match alt_width {
        Some(w) => w as int,
        None => box_width(s),
    }
}

/// What drawing `s` at height `y` sends: the source picture filled white
/// over the box, the destination filled with `bg` over the box moved down to
/// `y`, then one composite request per glyph run.
pub open spec fn text_requests(
    order: ByteOrder,
    src: u32,
    dst: u32,
    s: RenderString,
    alt_width: Option<u16>,
    y: int,
    bg: RenderColor,
) -> Seq<RequestView> {
    let w = fill_width(s, alt_width) as u16;
    let h = box_height(s) as u16;
    seq![
        RequestView::FillRectangles {
            op: PictOp::Src,
            dst: src,
            color: RenderColor { red: 0xffff, green: 0xffff, blue: 0xffff, alpha: 0xffff },
            rect: Rect { x: 0, y: 0, w, h },
        },
        RequestView::FillRectangles {
            op: PictOp::Src,
            dst,
            color: bg,
            rect: Rect { x: 0, y: y as i16, w, h },
        },
    ] + lines_requests(order, src, dst, s.lines@, s.hpad, s.line_gap, y)
}

proof fn lemma_line_top_bound(lines: Seq<RenderLine>, gap: u16, y: int, k: int)
    requires
        0 <= k < lines.len(),
    ensures
        line_top(lines, gap, y, k) <= y + sum_heights(lines) + (lines.len() - 1) * gap,
        line_top(lines, gap, y, k) >= y,
{
    lemma_sum_heights_prefix(lines, k);
    assert(k * gap <= (lines.len() - 1) * gap) by (nonlinear_arith)
        requires
            0 <= k <= lines.len() - 1,
            gap >= 0,
    ;
    assert(k * gap >= 0) by (nonlinear_arith)
        requires
            0 <= k,
            gap >= 0,
    ;
}

impl FontDrawer {
    /// Appends the composite requests of one line's runs.
    fn draw_runs(
        &self,
        reqs: &mut Vec<Request>,
        src: u32,
        dst: u32,
        line: &RenderLine,
        hpad: u16,
        y: i16,
    )
        requires
            line.wf(),
            hpad + line.width <= MAX_COORD,
        ensures
            views(final(reqs)@) == views(old(reqs)@) + run_requests(
                self.byte_order,
                src,
                dst,
                line.chunks@,
                hpad as int,
                y as int,
            ),
    {
        let ghost head = views(reqs@);
        let ghost chunks = line.chunks@;
        let mut offset_x: i32 = hpad as i32;
        let mut j: usize = 0;
        proof {
            assert(chunks.take(0) =~= Seq::<FontEncodedChunk>::empty());
            assert(head + run_requests(self.byte_order, src, dst, chunks.take(0), hpad as int, y as int) =~= head);
        }
        while j < line.chunks.len()
            invariant
                chunks == line.chunks@,
                line.wf(),
                hpad + line.width <= MAX_COORD,
                j <= chunks.len(),
                offset_x == hpad + chunk_width_sum(chunks.take(j as int)),
                views(reqs@) == head + run_requests(
                    self.byte_order,
                    src,
                    dst,
                    chunks.take(j as int),
                    hpad as int,
                    y as int,
                ),
            decreases chunks.len() - j,
        {
            proof {
                lemma_chunk_width_prefix(chunks, j as int);
                lemma_chunk_width_step(chunks, j as int);
                lemma_chunk_width_prefix(chunks, j as int + 1);
                assert(chunks.take(j as int + 1).drop_last() =~= chunks.take(j as int));
            }
            let chunk = &line.chunks[j];
            let glyphcmds = self.glyph_element(offset_x as i16, y, &chunk.glyph_ids);
            push_request(
                reqs,
                Request::CompositeGlyphs32 {
                    op: PictOp::Over,
                    src,
                    dst,
                    glyphset: chunk.glyph_set,
                    glyphcmds,
                },
            );
            offset_x = offset_x + chunk.width as i32;
            j = j + 1;
        }
        proof {
            assert(chunks.take(chunks.len() as int) =~= chunks);
        }
    }

    /// Draws `string` with its top at `y`: fills the source picture white
    /// and the destination with `bg` (over `alt_width`, else the string's box
    /// width), then composites each line's glyph runs, the pen advancing by
    /// each run's width along a line and by the line height and gap down.
    pub fn draw(
        &self,
        src: u32,
        dst: u32,
        string: &RenderString,
        alt_width: Option<u16>,
        y: i16,
        bg: RenderColor,
    ) -> (r: Vec<Request>)
        requires
            string.wf(),
            y + box_height(*string) <= MAX_COORD,
        ensures
            views(r@) == text_requests(self.byte_order, src, dst, *string, alt_width, y as int, bg),
    {
        let (bw, h) = string.box_dimensions();
        let w = match alt_width {
            Some(a) => a,
            None => bw,
        };
        let mut reqs: Vec<Request> = Vec::new();
        push_request(
            &mut reqs,
            Request::FillRectangles {
                op: PictOp::Src,
                dst: src,
                color: white_render_color(),
                rect: Rect::new(0, 0, w, h),
            },
        );
        push_request(
            &mut reqs,
            Request::FillRectangles { op: PictOp::Src, dst, color: bg, rect: Rect::new(0, y, w, h) },
        );
        let ghost head = views(reqs@);
        let ghost lines = string.lines@;
        let ghost order = self.byte_order;
        let ghost hpad = string.hpad;
        let ghost gap = string.line_gap;
        proof {
            assert(lines.take(0) =~= Seq::<RenderLine>::empty());
            assert(head + lines_requests(order, src, dst, lines.take(0), hpad, gap, y as int) =~= head);
        }
        let mut offset_y: i32 = y as i32;
        let mut i: usize = 0;
        while i < string.lines.len()
            invariant
                lines == string.lines@,
                order == self.byte_order,
                hpad == string.hpad,
                gap == string.line_gap,
                string.wf(),
                y + box_height(*string) <= MAX_COORD,
                i <= lines.len(),
                offset_y == line_top(lines, gap, y as int, i as int),
                views(reqs@) == head + lines_requests(
                    order,
                    src,
                    dst,
                    lines.take(i as int),
                    hpad,
                    gap,
                    y as int,
                ),
            decreases lines.len() - i,
        {
            let line = &string.lines[i];
            proof {
                lemma_line_top_bound(lines, gap, y as int, i as int);
                lemma_sum_heights_step(lines, i as int);
                let t = lines.take(i as int + 1);
                assert(t.drop_last() =~= lines.take(i as int));
                assert(t.last() == lines[i as int]);
                assert(line_top(t, gap, y as int, i as int) == line_top(lines, gap, y as int, i as int)) by {
                    assert(t.take(i as int) =~= lines.take(i as int));
                }
                assert(string.lines@[i as int].wf());
            }
            self.draw_runs(&mut reqs, src, dst, line, string.hpad, offset_y as i16);
            proof {
                let t = lines.take(i as int + 1);
                assert(views(reqs@) =~= head + lines_requests(order, src, dst, t, hpad, gap, y as int));
            }
            offset_y = offset_y + line.height as i32 + string.line_gap as i32;
            proof {
                assert((i as int + 1) * gap == i as int * gap + gap) by (nonlinear_arith);
            }
            i = i + 1;
        }
        proof {
            assert(lines.take(lines.len() as int) =~= lines);
        }
        reqs
    }
}

} // verus!
