use vstd::prelude::*;

verus! {

/// The value of every channel of a background pixel.
pub const WHITE: u8 = 255;

/// A three-channel pixel grid, stored row by row, three bytes per pixel.
pub struct Canvas {
    pub width: u32,
    pub height: u32,
    pub pixels: Vec<u8>,
}

/// The number of bytes that a grid of the given dimensions occupies.
pub open spec fn byte_count(width: u32, height: u32) -> int {
    3 * (width as int) * (height as int)
}

/// A sequence holds nothing but background channels.
pub open spec fn all_white(pixels: Seq<u8>) -> bool {
    forall|i: int| 0 <= i < pixels.len() ==> pixels[i] == WHITE
}

impl Canvas {
    /// The buffer holds exactly three bytes for each pixel of the grid.
    pub open spec fn wf(&self) -> bool {
        self.pixels@.len() == byte_count(self.width, self.height)
    }

    /// Every channel of every pixel is the background value.
    pub open spec fn is_blank(&self) -> bool {
        all_white(self.pixels@)
    }

    /// A canvas of the given dimensions with every pixel white.
    pub fn white(width: u32, height: u32) -> (canvas: Canvas)
        ensures
            canvas.wf(),
            canvas.width == width,
            canvas.height == height,
            canvas.is_blank(),
    {
        let total: u128 = Self::buffer_len(width, height);
        let mut pixels: Vec<u8> = Vec::new();
        let mut filled: u128 = 0;
        while filled < total
            invariant
                filled <= total,
                pixels@.len() == filled,
                all_white(pixels@),
            decreases total - filled,
        {
            pixels.push(WHITE);
            filled = filled + 1;
        }
        Canvas { width, height, pixels }
    }

    /// Wraps a raw buffer, if its length fits the dimensions.
    pub fn from_raw(width: u32, height: u32, pixels: Vec<u8>) -> (canvas: Option<Canvas>)
        ensures
            canvas is Some <==> pixels@.len() == byte_count(width, height),
            canvas is Some ==> canvas->0 == (Canvas { width, height, pixels }),
    {
        let candidate = Canvas { width, height, pixels };
        if candidate.is_well_formed() {
            Some(candidate)
        } else {
            None
        }
    }

    /// Three times the pixel count, which always fits in 128 bits.
    fn buffer_len(width: u32, height: u32) -> (total: u128)
        ensures
            total == byte_count(width, height),
    {
        let w: u128 = width as u128;
        let h: u128 = height as u128;
        assert(w * h <= 0xffff_ffff * 0xffff_ffff) by (nonlinear_arith)
            requires
                w <= 0xffff_ffff,
                h <= 0xffff_ffff,
        ;
        assert(3 * (width as int) * (height as int) == 3 * (w * h)) by (nonlinear_arith)
            requires
                w == width,
                h == height,
        ;
        3 * (w * h)
    }

    /// Tests the invariant on a value that came from elsewhere.
    pub fn is_well_formed(&self) -> (ok: bool)
        ensures
            ok == self.wf(),
    {
        let total: u128 = Self::buffer_len(self.width, self.height);
        self.pixels.len() as u128 == total
    }

    /// Tells whether the two grids have the same dimensions.
    pub fn same_size(&self, width: u32, height: u32) -> (same: bool)
        ensures
            same == (self.width == width && self.height == height),
    {
        self.width == width && self.height == height
    }
}

/// Tells whether the image has any content besides white pixels.
pub fn is_not_empty(image: &Canvas) -> (found: bool)
    ensures
        found == !image.is_blank(),
{
    let mut i: usize = 0;
    while i < image.pixels.len()
        invariant
            i <= image.pixels@.len(),
            all_white(image.pixels@.take(i as int)),
        decreases image.pixels@.len() - i,
    {
        if image.pixels[i] != WHITE {
            return true;
        }
        assert(image.pixels@.take(i + 1) =~= image.pixels@.take(i as int).push(image.pixels@[i as int]));
        i = i + 1;
    }
    assert(image.pixels@.take(i as int) =~= image.pixels@);
    false
}

} // verus!
