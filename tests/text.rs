use mevi::font::{ByteOrder, FontDrawer, FontEncodedChunk, GlyphMetrics, LoadedFont};
use mevi::image_info::{decimal, ImageInfo};
use mevi::render_string::{RenderLine, RenderString, ToRenderLine};
use mevi::request::{gray_render_color, white_render_color, PictOp, Request};
use mevi::geometry::Rect;

fn font() -> LoadedFont {
    LoadedFont {
        glyph_set: 7,
        line_height: 20,
        glyphs: vec![
            GlyphMetrics { ch: 'a', id: 1, advance: 10 },
            GlyphMetrics { ch: 'b', id: 2, advance: 12 },
            GlyphMetrics { ch: 'x', id: 3, advance: 8 },
            GlyphMetrics { ch: 'a', id: 99, advance: 50 },
        ],
    }
}

fn drawer() -> FontDrawer {
    FontDrawer::new(font(), ByteOrder::LsbFirst)
}

fn bare_line(width: i16, height: u16) -> RenderLine {
    RenderLine { chunks: vec![], width, height }
}

#[test]
fn glyph_lookup_takes_first_entry() {
    let f = font();
    assert_eq!(f.glyph('a'), Some(GlyphMetrics { ch: 'a', id: 1, advance: 10 }));
    assert_eq!(f.glyph('q'), None);
}

#[test]
fn measuring_skips_unknown_characters() {
    let f = font();
    assert_eq!(f.geometry("abx"), (30, 20));
    assert_eq!(f.geometry("a?b"), (22, 20));
    assert_eq!(f.geometry(""), (0, 20));
}

#[test]
fn measuring_is_capped_at_line_width_limit() {
    let f = font();
    let text = "b".repeat(2000);
    assert_eq!(f.geometry(&text), (16384, 20));
}

#[test]
fn encode_stops_at_max_width() {
    let f = font();
    let runs = f.encode("ab", 15);
    assert_eq!(runs, vec![FontEncodedChunk { glyph_set: 7, glyph_ids: vec![1], width: 10 }]);
    let runs = f.encode("ab", 22);
    assert_eq!(runs, vec![FontEncodedChunk { glyph_set: 7, glyph_ids: vec![1, 2], width: 22 }]);
}

#[test]
fn encode_without_room_gives_no_run() {
    let f = font();
    assert!(f.encode("ab", 9).is_empty());
    assert!(f.encode("ab", -1).is_empty());
    assert!(f.encode("", 100).is_empty());
    assert!(f.encode("??", 100).is_empty());
}

#[test]
fn run_of_254_glyphs_is_kept_whole() {
    let d = drawer();
    let line = RenderLine::new(&d, &"a".repeat(254));
    assert_eq!(line.width, 2540);
    assert_eq!(line.chunks.len(), 1);
    assert_eq!(line.chunks[0].glyph_ids.len(), 254);
    assert_eq!(line.chunks[0].width, 2540);
}

#[test]
fn run_of_255_glyphs_is_cut_to_254() {
    let d = drawer();
    let line = RenderLine::new(&d, &"a".repeat(255));
    assert_eq!(line.width, 2550);
    assert_eq!(line.chunks.len(), 1);
    assert_eq!(line.chunks[0].glyph_ids.len(), 254);
    assert_eq!(line.chunks[0].width, 2540);
}

#[test]
fn render_line_of_text() {
    let d = drawer();
    let line = RenderLine::new(&d, "bax");
    assert_eq!(line.width, 30);
    assert_eq!(line.height, 20);
    assert_eq!(line.chunks, vec![FontEncodedChunk { glyph_set: 7, glyph_ids: vec![2, 1, 3], width: 30 }]);
}

#[test]
fn render_string_bounding_box() {
    let s = RenderString::new(vec![bare_line(40, 20), bare_line(60, 20), bare_line(30, 20)])
        .line_gap(5)
        .pad(5);
    assert_eq!(s.total_width, 60);
    assert_eq!(s.total_height, 60);
    assert_eq!(s.box_dimensions(), (70, 80));
}

#[test]
fn render_string_sums_unequal_heights() {
    let s = RenderString::new(vec![bare_line(10, 7), bare_line(3, 11)]);
    assert_eq!(s.total_width, 10);
    assert_eq!(s.total_height, 18);
    assert_eq!(s.box_dimensions(), (10, 18));
    let s = s.line_gap(4);
    assert_eq!(s.box_dimensions(), (10, 22));
}

#[test]
fn render_string_without_lines_is_its_padding() {
    let s = RenderString::new(vec![]).line_gap(5).pad(3);
    assert_eq!(s.box_dimensions(), (6, 6));
}

#[test]
fn glyph_element_little_endian() {
    let d = drawer();
    let bytes = d.glyph_element(5, -2, &vec![1, 0x01020304]);
    assert_eq!(bytes, vec![2, 0, 0, 0, 5, 0, 0xfe, 0xff, 1, 0, 0, 0, 4, 3, 2, 1]);
}

#[test]
fn glyph_element_big_endian() {
    let d = FontDrawer::new(font(), ByteOrder::MsbFirst);
    let bytes = d.glyph_element(5, -2, &vec![1, 0x01020304]);
    assert_eq!(bytes, vec![2, 0, 0, 0, 0, 5, 0xff, 0xfe, 0, 0, 0, 1, 1, 2, 3, 4]);
}

#[test]
fn glyph_element_keeps_at_most_254_glyphs() {
    let d = drawer();
    let ids: Vec<u32> = (0..300).collect();
    let bytes = d.glyph_element(0, 0, &ids);
    assert_eq!(bytes[0], 254);
    assert_eq!(bytes.len(), 8 + 4 * 254);
    assert_eq!(&bytes[bytes.len() - 4..], &[253, 0, 0, 0]);
    let ids: Vec<u32> = (0..254).collect();
    assert_eq!(d.glyph_element(0, 0, &ids)[0], 254);
    let ids: Vec<u32> = (0..253).collect();
    assert_eq!(d.glyph_element(0, 0, &ids)[0], 253);
}

#[test]
fn draw_fills_and_composites_each_run() {
    let d = drawer();
    let s = RenderString::new(vec![RenderLine::new(&d, "ab"), RenderLine::new(&d, "x")])
        .line_gap(5)
        .pad(5);
    assert_eq!(s.box_dimensions(), (32, 55));
    let reqs = d.draw(100, 200, &s, None, 3, gray_render_color());
    assert_eq!(
        reqs,
        vec![
            Request::FillRectangles {
                op: PictOp::Src,
                dst: 100,
                color: white_render_color(),
                rect: Rect::new(0, 0, 32, 55),
            },
            Request::FillRectangles {
                op: PictOp::Src,
                dst: 200,
                color: gray_render_color(),
                rect: Rect::new(0, 3, 32, 55),
            },
            Request::CompositeGlyphs32 {
                op: PictOp::Over,
                src: 100,
                dst: 200,
                glyphset: 7,
                glyphcmds: vec![2, 0, 0, 0, 5, 0, 3, 0, 1, 0, 0, 0, 2, 0, 0, 0],
            },
            Request::CompositeGlyphs32 {
                op: PictOp::Over,
                src: 100,
                dst: 200,
                glyphset: 7,
                glyphcmds: vec![1, 0, 0, 0, 5, 0, 28, 0, 3, 0, 0, 0],
            },
        ]
    );
}

#[test]
fn draw_uses_caller_width_for_fills() {
    let d = drawer();
    let s = RenderString::new(vec![RenderLine::new(&d, "")]).pad(5);
    let reqs = d.draw(1, 2, &s, Some(100), 0, gray_render_color());
    assert_eq!(reqs.len(), 2);
    assert_eq!(
        reqs[0],
        Request::FillRectangles {
            op: PictOp::Src,
            dst: 1,
            color: white_render_color(),
            rect: Rect::new(0, 0, 100, 30),
        }
    );
}

#[test]
fn decimal_digits() {
    assert_eq!(decimal(0), "0");
    assert_eq!(decimal(7), "7");
    assert_eq!(decimal(1234567890), "1234567890");
    assert_eq!(decimal(u64::MAX), "18446744073709551615");
}

fn ascii_font() -> LoadedFont {
    let mut glyphs = Vec::new();
    for c in 32u8..127 {
        glyphs.push(GlyphMetrics { ch: c as char, id: c as u32, advance: 1 });
    }
    LoadedFont { glyph_set: 1, line_height: 12, glyphs }
}

fn info() -> ImageInfo {
    ImageInfo {
        ow: 1920,
        oh: 1080,
        w: 960,
        h: 540,
        size: 42,
        path: "/tmp/a.png".to_string(),
        format: "Png".to_string(),
    }
}

#[test]
fn image_info_lines() {
    let d = FontDrawer::new(ascii_font(), ByteOrder::LsbFirst);
    let lines = info().to_lines(&d);
    let widths: Vec<i16> = lines.iter().map(|l| l.width).collect();
    assert_eq!(widths, vec![16, 21, 9, 10]);
    let ids: Vec<u32> = lines[1].chunks[0].glyph_ids.clone();
    let text: String = ids.iter().map(|i| char::from(*i as u8)).collect();
    assert_eq!(text, "dimensions: 1920x1080");
    let ids: Vec<u32> = lines[3].chunks[0].glyph_ids.clone();
    let text: String = ids.iter().map(|i| char::from(*i as u8)).collect();
    assert_eq!(text, "size: 42Kb");
}

#[test]
fn image_info_file_info_box() {
    let d = FontDrawer::new(ascii_font(), ByteOrder::LsbFirst);
    let s = info().file_info(&d);
    assert_eq!(s.lines.len(), 4);
    assert_eq!(s.box_dimensions(), (21 + 10, 4 * 12 + 3 * 5 + 10));
}
