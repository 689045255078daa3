use crate::canvas::{is_not_empty, Canvas};
use vstd::prelude::*;

verus! {

/// No canvas is wider than this many pixels.
pub const MAX_WIDTH: u32 = 2000;

/// The largest point size whose doubled height still fits in 32 bits.
pub const MAX_FONT_SIZE: u32 = 0x7fff_ffff;

/// The length of a word in bytes, as UTF-8.
pub open spec fn byte_len(word: Seq<char>) -> nat {
    vstd::utf8::encode_utf8(word).len()
}

/// Canvas width for a word of `word_len` bytes: two point sizes per byte, capped.
pub open spec fn canvas_width(word_len: nat, font_size: u32) -> int {
    if 2 * font_size * word_len <= MAX_WIDTH {
        2 * font_size * word_len
    } else {
        MAX_WIDTH as int
    }
}

/// Canvas height: twice the point size.
pub open spec fn canvas_height(font_size: u32) -> int {
    2 * font_size
}

/// Distance of the text origin from the left and from the top edge.
pub open spec fn offset_of(font_size: u32) -> int {
    font_size as int / 2
}

/// What is returned once the text has been drawn: the canvas, unless it has
/// lost its shape or shows nothing.
pub open spec fn render_outcome(drawn: Canvas, width: int, height: int) -> Option<Canvas> {
    if drawn.wf() && drawn.width == width && drawn.height == height && !drawn.is_blank() {
        Some(drawn)
    } else {
        None
    }
}

/// Computes the capped width without leaving 64 bits.
pub fn width_for(word_len: usize, font_size: u32) -> (width: u32)
    ensures
        width == canvas_width(word_len as nat, font_size),
{
    if word_len == 0 || font_size == 0 {
        assert(2 * font_size * word_len == 0) by (nonlinear_arith)
            requires
                word_len == 0 || font_size == 0,
        ;
        0
    } else if word_len >= 1000 {
        let ghost size = font_size as int;
        let ghost len = word_len as int;
        assert(2 * size * len >= 2 * 1 * 1000) by (nonlinear_arith)
            requires
                len >= 1000,
                size >= 1,
        ;
        MAX_WIDTH
    } else {
        let size: u64 = font_size as u64;
        let len: u64 = word_len as u64;
        assert(2 * size * len <= 2 * 0xffff_ffff * 1000) by (nonlinear_arith)
            requires
                size <= 0xffff_ffff,
                len < 1000,
        ;
        let wide: u64 = 2 * size * len;
        if wide <= MAX_WIDTH as u64 {
            wide as u32
        } else {
            MAX_WIDTH
        }
    }
}

/// Computes the canvas height.
pub fn height_for(font_size: u32) -> (height: u32)
    requires
        font_size <= MAX_FONT_SIZE,
    ensures
        height == canvas_height(font_size),
{
    2 * font_size
}

/// Where the text starts, measured from the left and from the top edge.
pub fn text_offset(font_size: u32) -> (offset: u32)
    ensures
        offset == offset_of(font_size),
{
    font_size / 2
}

/// What rendering a word of `word_len` bytes with `draw` may give: nothing
/// for a canvas without area; otherwise the outcome of some canvas that
/// `draw` makes of the white canvas and the two text offsets.
pub open spec fn renders<F: FnOnce(Canvas, u32, u32) -> Canvas>(
    draw: F,
    word_len: nat,
    font_size: u32,
    image: Option<Canvas>,
) -> bool {
    if canvas_width(word_len, font_size) == 0 || canvas_height(font_size) == 0 {
        image is None
    } else {
        exists|blank: Canvas, drawn: Canvas|
            {
                &&& blank.wf() && blank.is_blank()
                &&& blank.width == canvas_width(word_len, font_size)
                &&& blank.height == canvas_height(font_size)
                &&& call_ensures(draw, (blank, font_size / 2, font_size / 2), drawn)
                &&& image == render_outcome(drawn, blank.width as int, blank.height as int)
            }
    }
}

/// Renders one word: a white canvas sized for the word is handed to `draw`
/// together with the horizontal and vertical text offset, and what comes
/// back is returned unless it is blank. A word or point size of zero gives
/// a canvas without area, which fails before `draw` is called.
pub fn generate_image_for_word<F: FnOnce(Canvas, u32, u32) -> Canvas>(
    draw: F,
    word: &str,
    font_size: u32,
) -> (image: Option<Canvas>)
    requires
        font_size <= MAX_FONT_SIZE,
        forall|blank: Canvas, x: u32, y: u32| blank.wf() ==> call_requires(draw, (blank, x, y)),
    ensures
        renders(draw, byte_len(word@), font_size, image),
        image is Some ==> image->0.wf() && !image->0.is_blank(),
        image is Some ==> image->0.width == canvas_width(byte_len(word@), font_size),
        image is Some ==> image->0.height == canvas_height(font_size),
{
    let width: u32 = width_for(word.as_bytes().len(), font_size);
    let height: u32 = height_for(font_size);
    if width == 0 || height == 0 {
        return None;
    }
    let blank = Canvas::white(width, height);
    let offset: u32 = text_offset(font_size);
    let ghost before = blank;
    let drawn = draw(blank, offset, offset);
    let image = finish_render(drawn, width, height);
    assert(call_ensures(draw, (before, (font_size / 2) as u32, (font_size / 2) as u32), drawn));
    image
}

/// Decides what a drawn canvas is worth: nothing if it is blank (or no
/// longer has the expected shape), itself otherwise.
pub fn finish_render(drawn: Canvas, width: u32, height: u32) -> (image: Option<Canvas>)
    ensures
        image == render_outcome(drawn, width as int, height as int),
{
    if drawn.is_well_formed() && drawn.same_size(width, height) && is_not_empty(&drawn) {
        Some(drawn)
    } else {
        None
    }
}

} // verus!
