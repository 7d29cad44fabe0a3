use vstd::prelude::*;

use crate::font::{
    advance_sum, glyphs_of, lemma_advance_sum_nonneg, GlyphMetrics, LoadedFont, ids_of, lemma_placed_len_bounds, lemma_placed_len_when_fits,
    placed_len, text_width, FontDrawer, FontEncodedChunk, MAX_COORD, MAX_GLYPHS_PER_RUN,
    MAX_LINE_WIDTH,
};

verus! {

/// One shaped line of text: its glyph runs, measured width and height.
#[derive(Debug, PartialEq, Eq)]
pub struct RenderLine {
    pub chunks: Vec<FontEncodedChunk>,
    pub width: i16,
    pub height: u16,
}

/// Total width of a sequence of glyph runs.
pub open spec fn chunk_width_sum(chunks: Seq<FontEncodedChunk>) -> int
    decreases chunks.len(),
{
    if chunks.len() == 0 {
        0
    } else {
        chunk_width_sum(chunks.drop_last()) + chunks.last().width
    }
}

/// Sum of the heights of a sequence of lines.
pub open spec fn sum_heights(lines: Seq<RenderLine>) -> int
    decreases lines.len(),
{
    if lines.len() == 0 {
        0
    } else {
        sum_heights(lines.drop_last()) + lines.last().height
    }
}

/// The largest width of a sequence of lines, and 0 when there is none wider.
pub open spec fn max_line_width(lines: Seq<RenderLine>) -> int
    decreases lines.len(),
{
    if lines.len() == 0 {
        0
    } else {
        let prev = max_line_width(lines.drop_last());
        if lines.last().width > prev {
            lines.last().width as int
        } else {
            prev
        }
    }
}

/// Total space between `n` lines spaced `gap` apart.
pub open spec fn gap_total(n: int, gap: u16) -> int {
    if n > 0 {
        (n - 1) * gap
    } else {
        0
    }
}

/// `line` is `text` measured and shaped with `font`: as wide as the text
/// measures, as high as the font's lines, with one run of the glyphs that
/// fit in that width (at most `MAX_GLYPHS_PER_RUN`), or none if none fit.
pub open spec fn shaped(line: RenderLine, font: LoadedFont, text: Seq<char>) -> bool {
    let gs = glyphs_of(font.glyphs@, text);
    let k = placed_len(gs, line.width as int);
    &&& line.width == text_width(font.glyphs@, text)
    &&& line.height == font.line_height
    &&& k == 0 ==> line.chunks@.len() == 0
    &&& k > 0 ==> line.chunks@.len() == 1 && line.chunks@[0].glyph_set == font.glyph_set
        && line.chunks@[0].glyph_ids@ == ids_of(gs.take(k)) && line.chunks@[0].width
        == advance_sum(gs.take(k))
}

impl RenderLine {
    /// Runs of non-negative width that together fit in the line's width.
    pub open spec fn wf(&self) -> bool {
        &&& 0 <= self.width
        &&& forall|i: int| 0 <= i < self.chunks@.len() ==> #[trigger] self.chunks@[i].width >= 0
        &&& chunk_width_sum(self.chunks@) <= self.width
    }

    /// Measures and shapes `text` with the drawer's font: the line is as wide
    /// as the text measures, as high as the font's lines, and its glyphs are
    /// those that fit in that width, at most `MAX_GLYPHS_PER_RUN` of them.
    pub fn new(drawer: &FontDrawer, text: &str) -> (r: Self)
        ensures
            shaped(r, drawer.font, text@),
            ({
                let gs = glyphs_of(drawer.font.glyphs@, text@);
                advance_sum(gs) <= MAX_LINE_WIDTH && gs.len() > 0 ==> r.chunks@.len() == 1
                    && r.chunks@[0].glyph_ids@.len() == if gs.len() < MAX_GLYPHS_PER_RUN {
                    gs.len() as int
                } else {
                    MAX_GLYPHS_PER_RUN as int
                }
            }),
            r.wf(),
    {
        let (width, height) = drawer.font.geometry(text);
        let chunks = drawer.font.encode(text, width);
        proof {
            let gs = glyphs_of(drawer.font.glyphs@, text@);
            assert(gs.take(0) =~= Seq::<GlyphMetrics>::empty());
            lemma_advance_sum_nonneg(gs);
            lemma_placed_len_bounds(gs, width as int, 0);
            lemma_advance_sum_nonneg(gs.take(placed_len(gs, width as int)));
            if advance_sum(gs) <= MAX_LINE_WIDTH {
                lemma_placed_len_when_fits(gs, width as int, 0);
            }
            if chunks@.len() == 1 {
                assert(chunks@.drop_last() =~= Seq::<FontEncodedChunk>::empty());
                assert(chunk_width_sum(chunks@.drop_last()) == 0);
                assert(chunk_width_sum(chunks@) == chunks@[0].width);
            } else {
                assert(chunk_width_sum(chunks@) == 0);
            }
        }
        Self { chunks, width, height }
    }
}

/// Lines of text laid out with a gap between lines and padding around them.
#[derive(Debug, PartialEq, Eq)]
pub struct RenderString {
    pub lines: Vec<RenderLine>,
    pub line_gap: u16,
    pub total_width: u16,
    pub total_height: u16,
    pub vpad: u16,
    pub hpad: u16,
}

/// Width of the padded box around a string.
pub open spec fn box_width(s: RenderString) -> int {
    s.total_width + 2 * s.hpad
}

/// Height of the padded box around a string.
pub open spec fn box_height(s: RenderString) -> int {
    s.total_height + gap_total(s.lines@.len() as int, s.line_gap) + 2 * s.vpad
}

pub proof fn lemma_sum_heights_step(lines: Seq<RenderLine>, k: int)
    requires
        0 <= k < lines.len(),
    ensures
        sum_heights(lines.take(k + 1)) == sum_heights(lines.take(k)) + lines[k].height,
{
    assert(lines.take(k + 1).drop_last() =~= lines.take(k));
}

pub proof fn lemma_sum_heights_prefix(lines: Seq<RenderLine>, k: int)
    requires
        0 <= k <= lines.len(),
    ensures
        0 <= sum_heights(lines.take(k)) <= sum_heights(lines),
    decreases lines.len() - k,
{
    lemma_sum_heights_nonneg(lines.take(k));
    if k == lines.len() {
        assert(lines.take(k) =~= lines);
    } else {
        lemma_sum_heights_step(lines, k);
        lemma_sum_heights_prefix(lines, k + 1);
    }
}

pub proof fn lemma_sum_heights_nonneg(lines: Seq<RenderLine>)
    ensures
        sum_heights(lines) >= 0,
    decreases lines.len(),
{
    if lines.len() > 0 {
        lemma_sum_heights_nonneg(lines.drop_last());
    }
}

pub proof fn lemma_chunk_width_step(chunks: Seq<FontEncodedChunk>, k: int)
    requires
        0 <= k < chunks.len(),
    ensures
        chunk_width_sum(chunks.take(k + 1)) == chunk_width_sum(chunks.take(k)) + chunks[k].width,
{
    assert(chunks.take(k + 1).drop_last() =~= chunks.take(k));
}

pub proof fn lemma_chunk_width_prefix(chunks: Seq<FontEncodedChunk>, k: int)
    requires
        0 <= k <= chunks.len(),
        forall|i: int| 0 <= i < chunks.len() ==> #[trigger] chunks[i].width >= 0,
    ensures
        0 <= chunk_width_sum(chunks.take(k)) <= chunk_width_sum(chunks),
    decreases k,
{
    if k == 0 {
        lemma_chunk_width_prefix_tail(chunks, 0);
    } else {
        lemma_chunk_width_step(chunks, k - 1);
        lemma_chunk_width_prefix(chunks, k - 1);
        lemma_chunk_width_prefix_tail(chunks, k);
    }
}

proof fn lemma_chunk_width_prefix_tail(chunks: Seq<FontEncodedChunk>, k: int)
    requires
        0 <= k <= chunks.len(),
        forall|i: int| 0 <= i < chunks.len() ==> #[trigger] chunks[i].width >= 0,
    ensures
        chunk_width_sum(chunks.take(k)) <= chunk_width_sum(chunks),
    decreases chunks.len() - k,
{
    if k == chunks.len() {
        assert(chunks.take(k) =~= chunks);
    } else {
        lemma_chunk_width_step(chunks, k);
        lemma_chunk_width_prefix_tail(chunks, k + 1);
    }
}

pub proof fn lemma_max_line_width_bound(lines: Seq<RenderLine>, b: int)
    requires
        0 <= b,
        forall|i: int| 0 <= i < lines.len() ==> (#[trigger] lines[i]).width <= b,
    ensures
        0 <= max_line_width(lines) <= b,
    decreases lines.len(),
{
    if lines.len() > 0 {
        assert(lines.last() == lines[lines.len() - 1]);
        lemma_max_line_width_bound(lines.drop_last(), b);
    }
}

pub proof fn lemma_sum_heights_bound(lines: Seq<RenderLine>, b: int)
    requires
        0 <= b,
        forall|i: int| 0 <= i < lines.len() ==> (#[trigger] lines[i]).height <= b,
    ensures
        0 <= sum_heights(lines) <= b * lines.len(),
    decreases lines.len(),
{
    if lines.len() > 0 {
        assert(lines.last() == lines[lines.len() - 1]);
        lemma_sum_heights_bound(lines.drop_last(), b);
        assert(b * (lines.len() - 1) + b == b * lines.len()) by (nonlinear_arith);
    }
}

/// Produces the lines of text that describe a value.
pub trait ToRenderLine {
    /// The texts of the lines, top to bottom.
    spec fn line_texts(&self) -> Seq<Seq<char>>;

    /// Each line of `line_texts` shaped with the drawer's font.
    fn to_lines(&self, font_drawer: &FontDrawer) -> (r: Vec<RenderLine>)
        ensures
            r@.len() == self.line_texts().len(),
            forall|k: int|
                0 <= k < r@.len() ==> shaped(#[trigger] r@[k], font_drawer.font, self.line_texts()[k])
                    && r@[k].wf(),
    ;
}

impl RenderString {
    /// Every line is well formed and within the string's width, the height is
    /// the sum of the line heights, and the padded box fits in coordinates.
    pub open spec fn wf(&self) -> bool {
        &&& forall|i: int|
            0 <= i < self.lines@.len() ==> (#[trigger] self.lines@[i]).wf()
                && self.lines@[i].width <= self.total_width
        &&& self.total_height == sum_heights(self.lines@)
        &&& box_width(*self) <= MAX_COORD
        &&& box_height(*self) <= MAX_COORD
    }

    /// Lays out `lines` without gap or padding: as wide as the widest line,
    /// as high as all lines together.
    pub fn new(lines: Vec<RenderLine>) -> (r: Self)
        requires
            forall|i: int| 0 <= i < lines@.len() ==> (#[trigger] lines@[i]).wf(),
            sum_heights(lines@) <= MAX_COORD,
        ensures
            r.lines@ == lines@,
            r.total_width == max_line_width(lines@),
            r.total_height == sum_heights(lines@),
            r.line_gap == 0 && r.vpad == 0 && r.hpad == 0,
            r.wf(),
    {
        let mut total_width: i16 = 0;
        let mut total_height: u16 = 0;
        let mut i: usize = 0;
        while i < lines.len()
            invariant
                i <= lines@.len(),
                total_width == max_line_width(lines@.take(i as int)),
                0 <= total_width,
                total_height == sum_heights(lines@.take(i as int)),
                sum_heights(lines@) <= MAX_COORD,
                forall|j: int| 0 <= j < i ==> lines@[j].width <= total_width,
            decreases lines@.len() - i,
        {
            proof {
                assert(lines@.take(i as int + 1).drop_last() =~= lines@.take(i as int));
                lemma_sum_heights_prefix(lines@, i as int + 1);
            }
            if lines[i].width > total_width {
                total_width = lines[i].width;
            }
            total_height = total_height + lines[i].height;
            i = i + 1;
        }
        proof {
            assert(lines@.take(lines@.len() as int) =~= lines@);
        }
        Self { lines, line_gap: 0, total_width: total_width as u16, total_height, vpad: 0, hpad: 0 }
    }

    /// Sets the gap between lines.
    pub fn line_gap(self, gap: u16) -> (r: Self)
        requires
            self.wf(),
            self.total_height + gap_total(self.lines@.len() as int, gap) + 2 * self.vpad
                <= MAX_COORD,
        ensures
            r == (RenderString { line_gap: gap, ..self }),
            r.wf(),
    {
        let mut s = self;
        s.line_gap = gap;
        s
    }

    /// Sets the same padding on all four sides.
    pub fn pad(self, pad: u16) -> (r: Self)
        requires
            self.wf(),
            self.total_width + 2 * pad <= MAX_COORD,
            self.total_height + gap_total(self.lines@.len() as int, self.line_gap) + 2 * pad
                <= MAX_COORD,
        ensures
            r == (RenderString { hpad: pad, vpad: pad, ..self }),
            r.wf(),
    {
        let mut s = self;
        s.hpad = pad;
        s.vpad = pad;
        s
    }

    /// The padded box around the text: the widest line plus the horizontal
    /// padding on both sides, and the lines with the gaps between them plus
    /// the vertical padding on both sides.
    pub fn box_dimensions(&self) -> (r: (u16, u16))
        requires
            self.wf(),
        ensures
            r.0 == box_width(*self),
            r.1 == box_height(*self),
    {
        let n = self.lines.len();
        let gaps: u16 = if n > 0 {
            ((n - 1) as u64 * self.line_gap as u64) as u16
        } else {
            0
        };
        (self.total_width + 2 * self.hpad, self.total_height + gaps + 2 * self.vpad)
    }
}

} // verus!
