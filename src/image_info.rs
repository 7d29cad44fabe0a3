use vstd::prelude::*;

use crate::font::{FontDrawer, MAX_GLYPH_EXTENT, MAX_LINE_WIDTH};
use crate::render_string::{
    gap_total, lemma_max_line_width_bound, lemma_sum_heights_bound, max_line_width, shaped,
    sum_heights, RenderLine,
    RenderString, ToRenderLine,
};

verus! {

/// What the viewer tells about the image it shows: its size as decoded
/// (`ow` x `oh`) and as shown (`w` x `h`), its file size in kilobytes, its
/// path and its format.
#[derive(Debug)]
pub struct ImageInfo {
    pub ow: u32,
    pub oh: u32,
    pub w: u16,
    pub h: u16,
    pub size: u64,
    pub path: String,
    pub format: String,
}

/// The character of a decimal digit.
pub open spec fn digit_char(d: int) -> char {
    (48 + d) as char
}

/// The decimal digits of `n`, most significant first, without leading zeros.
pub open spec fn dec_digits(n: nat) -> Seq<char>
    decreases n,
{
    if n < 10 {
        seq![digit_char(n as int)]
    } else {
        dec_digits(n / 10).push(digit_char((n % 10) as int))
    }
}

fn digit_str(d: u64) -> (r: &'static str)
    requires
        d < 10,
    ensures
        r@ == seq![digit_char(d as int)],
{
    proof {
        reveal_strlit("0");
        reveal_strlit("1");
        reveal_strlit("2");
        reveal_strlit("3");
        reveal_strlit("4");
        reveal_strlit("5");
        reveal_strlit("6");
        reveal_strlit("7");
        reveal_strlit("8");
        reveal_strlit("9");
    }
    if d == 0 {
        "0"
    } else if d == 1 {
        "1"
    } else if d == 2 {
        "2"
    } else if d == 3 {
        "3"
    } else if d == 4 {
        "4"
    } else if d == 5 {
        "5"
    } else if d == 6 {
        "6"
    } else if d == 7 {
        "7"
    } else if d == 8 {
        "8"
    } else {
        "9"
    }
}

/// `n` written in decimal.
pub fn decimal(n: u64) -> (r: String)
    ensures
        r@ == dec_digits(n as nat),
    decreases n,
{
    if n < 10 {
        String::from_str(digit_str(n))
    } else {
        let mut s = decimal(n / 10);
        s.append(digit_str(n % 10));
        s
    }
}

/// The `k`-th line describing `info`.
pub open spec fn info_text(info: ImageInfo, k: int) -> Seq<char> {
    if k == 0 {
        "path: "@ + info.path@
    } else if k == 1 {
        "dimensions: "@ + dec_digits(info.ow as nat) + "x"@ + dec_digits(info.oh as nat)
    } else if k == 2 {
        "type: "@ + info.format@
    } else {
        "size: "@ + dec_digits(info.size as nat) + "Kb"@
    }
}

impl ToRenderLine for ImageInfo {
    open spec fn line_texts(&self) -> Seq<Seq<char>> {
        seq![info_text(*self, 0), info_text(*self, 1), info_text(*self, 2), info_text(*self, 3)]
    }

    fn to_lines(&self, font_drawer: &FontDrawer) -> (r: Vec<RenderLine>) {
        let mut path = String::from_str("path: ");
        path.append(self.path.as_str());
        let mut dims = String::from_str("dimensions: ");
        dims.append(decimal(self.ow as u64).as_str());
        dims.append("x");
        dims.append(decimal(self.oh as u64).as_str());
        let mut kind = String::from_str("type: ");
        kind.append(self.format.as_str());
        let mut size = String::from_str("size: ");
        size.append(decimal(self.size).as_str());
        size.append("Kb");
        let mut lines: Vec<RenderLine> = Vec::new();
        lines.push(RenderLine::new(font_drawer, path.as_str()));
        lines.push(RenderLine::new(font_drawer, dims.as_str()));
        lines.push(RenderLine::new(font_drawer, kind.as_str()));
        lines.push(RenderLine::new(font_drawer, size.as_str()));
        proof {
            assert(path@ == info_text(*self, 0));
            assert(dims@ == info_text(*self, 1));
            assert(kind@ == info_text(*self, 2));
            assert(size@ == info_text(*self, 3));
        }
        lines
    }
}

impl ImageInfo {
    /// The file information text: the lines of `to_lines`, 5 apart, padded
    /// by 5.
    pub fn file_info(&self, font_drawer: &FontDrawer) -> (r: RenderString)
        requires
            font_drawer.font.wf(),
        ensures
            r.lines@.len() == 4,
            forall|k: int|
                0 <= k < 4 ==> shaped(#[trigger] r.lines@[k], font_drawer.font, info_text(*self, k)),
            r.total_width == max_line_width(r.lines@),
            r.total_height == sum_heights(r.lines@),
            r.line_gap == 5 && r.hpad == 5 && r.vpad == 5,
            r.wf(),
    {
        let lines = self.to_lines(font_drawer);
        proof {
            let ls = lines@;
            assert forall|i: int| 0 <= i < ls.len() implies (#[trigger] ls[i]).height
                <= MAX_GLYPH_EXTENT && ls[i].width <= MAX_LINE_WIDTH by {
                assert(shaped(ls[i], font_drawer.font, self.line_texts()[i]));
            }
            lemma_sum_heights_bound(ls, MAX_GLYPH_EXTENT as int);
            lemma_max_line_width_bound(ls, MAX_LINE_WIDTH as int);
        }
        let s = RenderString::new(lines);
        proof {
            assert(gap_total(4, 5) == 15);
        }
        s.line_gap(5).pad(5)
    }
}

} // verus!
