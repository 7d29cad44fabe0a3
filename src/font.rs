use vstd::prelude::*;

verus! {

/// Most glyph identifiers one composite request carries.
pub const MAX_GLYPHS_PER_RUN: usize = 254;

/// Largest value of a protocol coordinate.
pub const MAX_COORD: i16 = 32767;

/// Widest a measured line of text can be; wider text is cut there.
pub const MAX_LINE_WIDTH: i16 = 16384;

/// The raster-cache entry of one character: its glyph identifier and the
/// horizontal distance the pen moves after drawing it.
#[derive(Clone, Copy, Debug, PartialEq, Eq, Structural)]
pub struct GlyphMetrics {
    pub ch: char,
    pub id: u32,
    pub advance: u16,
}

/// A font whose glyphs have been uploaded into one glyph set of the server.
/// Characters without an entry in `glyphs` are not drawn.
#[derive(Debug)]
pub struct LoadedFont {
    pub glyph_set: u32,
    pub line_height: u16,
    pub glyphs: Vec<GlyphMetrics>,
}

/// A run of glyphs drawn by one composite request, all from one glyph set.
#[derive(Debug, PartialEq, Eq)]
pub struct FontEncodedChunk {
    pub glyph_set: u32,
    pub glyph_ids: Vec<u32>,
    pub width: i16,
}

/// The first entry for `c` at or after index `i`.
pub open spec fn lookup_from(table: Seq<GlyphMetrics>, c: char, i: int) -> Option<GlyphMetrics>
    decreases table.len() - i,
{
    if i < 0 || i >= table.len() {
        None
    } else if table[i].ch == c {
        Some(table[i])
    } else {
        lookup_from(table, c, i + 1)
    }
}

/// Largest glyph advance and line height of a usable font.
pub const MAX_GLYPH_EXTENT: u16 = 1024;

/// The entry of `c`: the first one in the table.
pub open spec fn lookup(table: Seq<GlyphMetrics>, c: char) -> Option<GlyphMetrics> {
    lookup_from(table, c, 0)
}

/// The glyphs of a text, in order; characters without an entry are skipped.
pub open spec fn glyphs_of(table: Seq<GlyphMetrics>, text: Seq<char>) -> Seq<GlyphMetrics>
    decreases text.len(),
{
    if text.len() == 0 {
        Seq::empty()
    } else {
        let prev = glyphs_of(table, text.drop_last());
        match lookup(table, text.last()) {
            Some(g) => prev.push(g),
            None => prev,
        }
    }
}

/// Total advance of a sequence of glyphs.
pub open spec fn advance_sum(gs: Seq<GlyphMetrics>) -> int
    decreases gs.len(),
{
    if gs.len() == 0 {
        0
    } else {
        advance_sum(gs.drop_last()) + gs.last().advance
    }
}

/// Measured width of a text: its total advance, at most `MAX_LINE_WIDTH`.
pub open spec fn text_width(table: Seq<GlyphMetrics>, text: Seq<char>) -> int {
    let total = advance_sum(glyphs_of(table, text));
    if total > MAX_LINE_WIDTH {
        MAX_LINE_WIDTH as int
    } else {
        total
    }
}

/// Counting from `k`: how many leading glyphs are placed when a run holds at
/// most `MAX_GLYPHS_PER_RUN` glyphs and must end within `max_width`.
pub open spec fn placed_from(gs: Seq<GlyphMetrics>, max_width: int, k: int) -> int
    decreases gs.len() - k,
{
    if k < 0 || k >= gs.len() || k >= MAX_GLYPHS_PER_RUN || advance_sum(gs.take(k + 1))
        > max_width {
        k
    } else {
        placed_from(gs, max_width, k + 1)
    }
}

/// Number of glyphs of `gs` placed in a run of width at most `max_width`.
pub open spec fn placed_len(gs: Seq<GlyphMetrics>, max_width: int) -> int {
    placed_from(gs, max_width, 0)
}

pub open spec fn ids_of(gs: Seq<GlyphMetrics>) -> Seq<u32> {
    gs.map_values(|g: GlyphMetrics| g.id)
}

pub proof fn lemma_advance_sum_step(gs: Seq<GlyphMetrics>, k: int)
    requires
        0 <= k < gs.len(),
    ensures
        advance_sum(gs.take(k + 1)) == advance_sum(gs.take(k)) + gs[k].advance,
{
    assert(gs.take(k + 1).drop_last() =~= gs.take(k));
}

pub proof fn lemma_advance_sum_prefix(gs: Seq<GlyphMetrics>, k: int)
    requires
        0 <= k <= gs.len(),
    ensures
        0 <= advance_sum(gs.take(k)) <= advance_sum(gs),
    decreases gs.len() - k,
{
    if k == gs.len() {
        assert(gs.take(k) =~= gs);
        lemma_advance_sum_nonneg(gs);
    } else {
        lemma_advance_sum_step(gs, k);
        lemma_advance_sum_prefix(gs, k + 1);
        lemma_advance_sum_nonneg(gs.take(k));
    }
}

pub proof fn lemma_advance_sum_nonneg(gs: Seq<GlyphMetrics>)
    ensures
        advance_sum(gs) >= 0,
    decreases gs.len(),
{
    if gs.len() > 0 {
        lemma_advance_sum_nonneg(gs.drop_last());
    }
}

/// The placed glyphs fit: there are at most `MAX_GLYPHS_PER_RUN` of them and
/// they end within `max_width` (when it is not negative).
pub proof fn lemma_placed_len_bounds(gs: Seq<GlyphMetrics>, max_width: int, k: int)
    requires
        0 <= k <= gs.len(),
        k <= MAX_GLYPHS_PER_RUN,
        advance_sum(gs.take(k)) <= max_width,
    ensures
        k <= placed_from(gs, max_width, k) <= gs.len(),
        placed_from(gs, max_width, k) <= MAX_GLYPHS_PER_RUN,
        advance_sum(gs.take(placed_from(gs, max_width, k))) <= max_width,
    decreases gs.len() - k,
{
    if !(k >= gs.len() || k >= MAX_GLYPHS_PER_RUN || advance_sum(gs.take(k + 1)) > max_width) {
        lemma_placed_len_bounds(gs, max_width, k + 1);
    }
}

/// When the whole text fits in `max_width`, the run holds its first
/// `MAX_GLYPHS_PER_RUN` glyphs, or all of them if there are fewer.
pub proof fn lemma_placed_len_when_fits(gs: Seq<GlyphMetrics>, max_width: int, k: int)
    requires
        0 <= k <= gs.len(),
        k <= MAX_GLYPHS_PER_RUN,
        advance_sum(gs) <= max_width,
    ensures
        placed_from(gs, max_width, k) == if gs.len() < MAX_GLYPHS_PER_RUN {
            gs.len() as int
        } else {
            MAX_GLYPHS_PER_RUN as int
        },
    decreases gs.len() - k,
{
    if k < gs.len() && k < MAX_GLYPHS_PER_RUN {
        lemma_advance_sum_prefix(gs, k + 1);
        lemma_placed_len_when_fits(gs, max_width, k + 1);
    }
}

impl LoadedFont {
    /// Glyph cells of bounded size: no advance and no line height above
    /// `MAX_GLYPH_EXTENT`.
    pub open spec fn wf(&self) -> bool {
        &&& self.line_height <= MAX_GLYPH_EXTENT
        &&& forall|i: int|
            0 <= i < self.glyphs@.len() ==> (#[trigger] self.glyphs@[i]).advance
                <= MAX_GLYPH_EXTENT
    }

    /// The entry of `c` in the glyph table, if any.
    pub fn glyph(&self, c: char) -> (r: Option<GlyphMetrics>)
        ensures
            r == lookup(self.glyphs@, c),
    {
        let mut i: usize = 0;
        while i < self.glyphs.len()
            invariant
                i <= self.glyphs@.len(),
                lookup(self.glyphs@, c) == lookup_from(self.glyphs@, c, i as int),
            decreases self.glyphs@.len() - i,
        {
            if self.glyphs[i].ch == c {
                return Some(self.glyphs[i]);
            }
            i = i + 1;
        }
        None
    }

    /// The glyphs of `text` in order, characters without an entry skipped.
    pub fn glyphs_for(&self, text: &str) -> (r: Vec<GlyphMetrics>)
        ensures
            r@ == glyphs_of(self.glyphs@, text@),
    {
        let n = text.unicode_len();
        let mut out: Vec<GlyphMetrics> = Vec::new();
        let mut i: usize = 0;
        while i < n
            invariant
                n == text@.len(),
                i <= n,
                out@ == glyphs_of(self.glyphs@, text@.take(i as int)),
            decreases n - i,
        {
            let c = text.get_char(i);
            proof {
                assert(text@.take(i as int + 1).drop_last() =~= text@.take(i as int));
            }
            match self.glyph(c) {
                Some(g) => out.push(g),
                None => {},
            }
            i = i + 1;
        }
        proof {
            assert(text@.take(n as int) =~= text@);
        }
        out
    }

    /// Measures `text`: its width (see `text_width`) and the line height.
    pub fn geometry(&self, text: &str) -> (r: (i16, u16))
        ensures
            r.0 == text_width(self.glyphs@, text@),
            r.1 == self.line_height,
    {
        let gs = self.glyphs_for(text);
        let mut total: u32 = 0;
        let mut i: usize = 0;
        while i < gs.len()
            invariant
                i <= gs@.len(),
                total == if advance_sum(gs@.take(i as int)) > MAX_LINE_WIDTH {
                    MAX_LINE_WIDTH as int
                } else {
                    advance_sum(gs@.take(i as int))
                },
            decreases gs@.len() - i,
        {
            proof {
                lemma_advance_sum_step(gs@, i as int);
                lemma_advance_sum_prefix(gs@, i as int);
            }
            let next: u32 = total + gs[i].advance as u32;
            total = if next > MAX_LINE_WIDTH as u32 {
                MAX_LINE_WIDTH as u32
            } else {
                next
            };
            i = i + 1;
        }
        proof {
            assert(gs@.take(gs@.len() as int) =~= gs@);
        }
        (total as i16, self.line_height)
    }

    /// Shapes `text` into glyph runs that end within `max_width`: one run of
    /// the leading glyphs that fit, at most `MAX_GLYPHS_PER_RUN` of them (the
    /// rest is cut off, not carried into another run), or no run when no
    /// glyph is placed.
    pub fn encode(&self, text: &str, max_width: i16) -> (r: Vec<FontEncodedChunk>)
        ensures
            ({
                let gs = glyphs_of(self.glyphs@, text@);
                let k = placed_len(gs, max_width as int);
                &&& k == 0 ==> r@.len() == 0
                &&& k > 0 ==> r@.len() == 1 && r@[0].glyph_set == self.glyph_set
                    && r@[0].glyph_ids@ == ids_of(gs.take(k)) && r@[0].width == advance_sum(
                    gs.take(k),
                )
            }),
    {
        let gs = self.glyphs_for(text);
        let ghost max = max_width as int;
        let mut ids: Vec<u32> = Vec::new();
        let mut pen: i32 = 0;
        let mut i: usize = 0;
        proof {
            assert(gs@.take(0) =~= Seq::<GlyphMetrics>::empty());
            assert(ids_of(gs@.take(0)) =~= Seq::<u32>::empty());
        }
        if max_width < 0 {
            proof {
                if gs@.len() > 0 {
                    lemma_advance_sum_step(gs@, 0);
                }
            }
            return Vec::new();
        }
        while i < gs.len() && i < MAX_GLYPHS_PER_RUN && pen + gs[i].advance as i32
            <= max_width as i32
            invariant
                0 <= max,
                max == max_width,
                i <= gs@.len(),
                i <= MAX_GLYPHS_PER_RUN,
                pen == advance_sum(gs@.take(i as int)),
                0 <= pen <= max,
                ids@ == ids_of(gs@.take(i as int)),
                placed_len(gs@, max) == placed_from(gs@, max, i as int),
            decreases gs@.len() - i,
        {
            proof {
                lemma_advance_sum_step(gs@, i as int);
                lemma_advance_sum_prefix(gs@, i as int);
                assert(ids_of(gs@.take(i as int + 1)) =~= ids_of(gs@.take(i as int)).push(
                    gs@[i as int].id,
                ));
            }
            ids.push(gs[i].id);
            pen = pen + gs[i].advance as i32;
            i = i + 1;
        }
        proof {
            if i < gs@.len() && i < MAX_GLYPHS_PER_RUN {
                lemma_advance_sum_step(gs@, i as int);
            }
        }
        if i == 0 {
            Vec::new()
        } else {
            let chunk = FontEncodedChunk {
                glyph_set: self.glyph_set,
                glyph_ids: ids,
                width: pen as i16,
            };
            let mut out: Vec<FontEncodedChunk> = Vec::new();
            out.push(chunk);
            out
        }
    }
}

} // verus!

verus! {

/// Byte order of the connection, in which multi-byte fields are written.
#[derive(Clone, Copy, Debug, PartialEq, Eq, Structural)]
pub enum ByteOrder {
    LsbFirst,
    MsbFirst,
}

/// Draws render strings with a loaded font.
pub struct FontDrawer {
    pub font: LoadedFont,
    pub byte_order: ByteOrder,
}

/// The two bytes of a 16-bit value `v` (0 <= v < 65536) in the given order.
pub open spec fn u16_bytes(v: int, order: ByteOrder) -> Seq<u8> {
    match order {
        ByteOrder::LsbFirst => seq![(v % 256) as u8, (v / 256) as u8],
        ByteOrder::MsbFirst => seq![(v / 256) as u8, (v % 256) as u8],
    }
}

/// The two bytes of a signed 16-bit coordinate, in two's complement.
pub open spec fn i16_bytes(v: int, order: ByteOrder) -> Seq<u8> {
    u16_bytes(if v < 0 { v + 65536 } else { v }, order)
}

/// The four bytes of a 32-bit value in the given order.
pub open spec fn u32_bytes(v: u32, order: ByteOrder) -> Seq<u8> {
    let b0 = (v % 256) as u8;
    let b1 = (v / 256 % 256) as u8;
    let b2 = (v / 65536 % 256) as u8;
    let b3 = (v / 16777216) as u8;
    match order {
        ByteOrder::LsbFirst => seq![b0, b1, b2, b3],
        ByteOrder::MsbFirst => seq![b3, b2, b1, b0],
    }
}

/// Glyph identifiers, four bytes each.
pub open spec fn ids_bytes(ids: Seq<u32>, order: ByteOrder) -> Seq<u8>
    decreases ids.len(),
{
    if ids.len() == 0 {
        Seq::empty()
    } else {
        ids_bytes(ids.drop_last(), order) + u32_bytes(ids.last(), order)
    }
}

/// Number of glyphs of a run that one composite request draws.
pub open spec fn shown_count(n: int) -> int {
    if n > MAX_GLYPHS_PER_RUN {
        MAX_GLYPHS_PER_RUN as int
    } else {
        n
    }
}

/// The glyph element of a composite request: a count byte and three bytes of
/// padding, the pen position, then the identifiers, of which only the first
/// `MAX_GLYPHS_PER_RUN` are kept.
pub open spec fn glyph_element(x: int, y: int, ids: Seq<u32>, order: ByteOrder) -> Seq<u8> {
    let shown = ids.take(shown_count(ids.len() as int));
    seq![shown.len() as u8, 0u8, 0u8, 0u8] + i16_bytes(x, order) + i16_bytes(y, order)
        + ids_bytes(shown, order)
}

fn push_u16(buf: &mut Vec<u8>, v: u16, order: ByteOrder)
    ensures
        final(buf)@ == old(buf)@ + u16_bytes(v as int, order),
{
    let lo = (v % 256) as u8;
    let hi = (v / 256) as u8;
    match order {
        ByteOrder::LsbFirst => {
            buf.push(lo);
            buf.push(hi);
        },
        ByteOrder::MsbFirst => {
            buf.push(hi);
            buf.push(lo);
        },
    }
    proof {
        assert(buf@ =~= old(buf)@ + u16_bytes(v as int, order));
    }
}

fn push_u32(buf: &mut Vec<u8>, v: u32, order: ByteOrder)
    ensures
        final(buf)@ == old(buf)@ + u32_bytes(v, order),
{
    let b0 = (v % 256) as u8;
    let b1 = (v / 256 % 256) as u8;
    let b2 = (v / 65536 % 256) as u8;
    let b3 = (v / 16777216) as u8;
    match order {
        ByteOrder::LsbFirst => {
            buf.push(b0);
            buf.push(b1);
            buf.push(b2);
            buf.push(b3);
        },
        ByteOrder::MsbFirst => {
            buf.push(b3);
            buf.push(b2);
            buf.push(b1);
            buf.push(b0);
        },
    }
    proof {
        assert(buf@ =~= old(buf)@ + u32_bytes(v, order));
    }
}

fn coord_bits(v: i16) -> (r: u16)
    ensures
        r == if v < 0 { v + 65536 } else { v as int },
{
    if v < 0 {
        (v as i32 + 65536) as u16
    } else {
        v as u16
    }
}

impl FontDrawer {
    pub fn new(font: LoadedFont, byte_order: ByteOrder) -> (r: Self)
        ensures
            r.font == font,
            r.byte_order == byte_order,
    {
        Self { font, byte_order }
    }

    /// Encodes the glyph element that draws `glyph_ids` with the pen at
    /// (`x`, `y`); a run longer than `MAX_GLYPHS_PER_RUN` is cut there.
    pub fn glyph_element(&self, x: i16, y: i16, glyph_ids: &Vec<u32>) -> (r: Vec<u8>)
        ensures
            r@ == glyph_element(x as int, y as int, glyph_ids@, self.byte_order),
    {
        let n: usize = if glyph_ids.len() > MAX_GLYPHS_PER_RUN {
            MAX_GLYPHS_PER_RUN
        } else {
            glyph_ids.len()
        };
        let ghost shown = glyph_ids@.take(n as int);
        let mut buf: Vec<u8> = Vec::with_capacity(8 + 4 * n);
        buf.push(n as u8);
        buf.push(0);
        buf.push(0);
        buf.push(0);
        push_u16(&mut buf, coord_bits(x), self.byte_order);
        push_u16(&mut buf, coord_bits(y), self.byte_order);
        let ghost head = buf@;
        proof {
            assert(head =~= seq![shown.len() as u8, 0u8, 0u8, 0u8] + i16_bytes(x as int, self.byte_order)
                + i16_bytes(y as int, self.byte_order));
            assert(shown.take(0) =~= Seq::<u32>::empty());
        }
        let mut i: usize = 0;
        while i < n
            invariant
                n <= glyph_ids@.len(),
                shown == glyph_ids@.take(n as int),
                i <= n,
                buf@ == head + ids_bytes(shown.take(i as int), self.byte_order),
            decreases n - i,
        {
            proof {
                assert(shown.take(i as int + 1).drop_last() =~= shown.take(i as int));
            }
            push_u32(&mut buf, glyph_ids[i], self.byte_order);
            proof {
                assert(buf@ =~= head + ids_bytes(shown.take(i as int + 1), self.byte_order));
            }
            i = i + 1;
        }
        proof {
            assert(shown.take(n as int) =~= shown);
        }
        buf
    }
}

} // verus!
