//! Decoded images: RGB bitmaps sampled by texel, and RGBA sprite sheets
//! reordered for an ARGB8888 texture.
use vstd::prelude::*;

verus! {

/// What the PNG decoder yields for a file's bytes: the first frame's
/// samples, its width and its height, or `None` where the file is refused.
pub uninterp spec fn png_decoded(bytes: Seq<u8>) -> Option<(Seq<u8>, u32, u32)>;

/// Relies on png's `Decoder::read_info`, `Reader::output_buffer_size` and
/// `Reader::next_frame`: the first frame decoded into a buffer of the size
/// the header calls for, with the frame's width and height. The outcome is
/// a function of the bytes alone.
#[verifier::external_body]
pub(crate) fn decode_png(bytes: &[u8]) -> (r: Result<(Vec<u8>, u32, u32), String>)
    ensures
        match r {
            Ok(img) => png_decoded(bytes@) == Some((img.0@, img.1, img.2)),
            Err(_) => png_decoded(bytes@) is None,
        },
{
    let mut reader = png::Decoder::new(bytes).read_info().map_err(|e| e.to_string())?;
    let mut buffer = vec![0u8; reader.output_buffer_size()];
    let info = reader.next_frame(&mut buffer).map_err(|e| e.to_string())?;
    Ok((buffer, info.width, info.height))
}

/// Number of bytes that `w * h` pixels of `depth` bytes each take.
pub open spec fn image_bytes(w: int, h: int, depth: int) -> int {
    w * h * depth
}

/// True when the bytes decode to an image with at least three bytes per pixel.
pub open spec fn decodes_to_rgb(bytes: Seq<u8>) -> bool {
    match png_decoded(bytes) {
        Some((p, w, h)) => p.len() >= image_bytes(w as int, h as int, 3),
        None => false,
    }
}

/// True when the bytes decode to an image with at least four bytes per pixel.
pub open spec fn decodes_to_rgba(bytes: Seq<u8>) -> bool {
    match png_decoded(bytes) {
        Some((p, w, h)) => p.len() >= image_bytes(w as int, h as int, 4),
        None => false,
    }
}

/// Byte offset of the texel in column `col` and row `row` of an RGB grid
/// `width` texels wide.
pub open spec fn texel_offset(col: int, row: int, width: int) -> int {
    col * 3 + row * width * 3
}

/// The texel at `(col, row)` of an RGB grid, with its channels in reverse
/// order (the byte order of the pixel buffer), or `outside` where the
/// position is off the grid.
pub open spec fn texel_or(
    data: Seq<u8>,
    width: int,
    height: int,
    col: int,
    row: int,
    outside: [u8; 3],
) -> [u8; 3] {
    if 0 <= col < width && 0 <= row < height {
        let i = texel_offset(col, row, width);
        [data[i + 2], data[i + 1], data[i]]
    } else {
        outside
    }
}

proof fn lemma_texel_in_bounds(col: int, row: int, width: int, height: int, len: int)
    requires
        0 <= col < width,
        0 <= row < height,
        len >= image_bytes(width, height, 3),
    ensures
        0 <= texel_offset(col, row, width),
        texel_offset(col, row, width) + 2 < len,
{
    assert(row * width + col < width * height) by (nonlinear_arith)
        requires
            0 <= col < width,
            0 <= row < height,
    ;
    assert(0 <= row * width) by (nonlinear_arith)
        requires
            0 <= row,
            0 <= width,
    ;
    assert(texel_offset(col, row, width) == 3 * (row * width + col)) by (nonlinear_arith);
    assert(image_bytes(width, height, 3) == 3 * (width * height)) by (nonlinear_arith);
}

/// Reads the texel at `(col, row)` of a grid whose bytes are known to cover
/// every texel.
pub(crate) fn read_texel(data: &Vec<u8>, width: usize, col: usize, row: usize) -> (r: [u8; 3])
    requires
        col < width,
        data@.len() >= image_bytes(width as int, (row + 1) as int, 3),
    ensures
        r == texel_or(data@, width as int, (row + 1) as int, col as int, row as int, [0u8, 0, 0]),
{
    proof {
        lemma_texel_in_bounds(col as int, row as int, width as int, (row + 1) as int, data@.len() as int);
        assert(row * width * 3 <= texel_offset(col as int, row as int, width as int)) by (nonlinear_arith)
            requires 0 <= col;
        assert(row * width <= row * width * 3) by (nonlinear_arith)
            requires 0 <= row, 0 <= width;
    }
    let len = data.len();
    assert(col * 3 <= texel_offset(col as int, row as int, width as int)) by (nonlinear_arith)
        requires 0 <= row, 0 <= width;
    assert(texel_offset(col as int, row as int, width as int) + 2 < len);
    let i = col * 3 + row * width * 3;
    [data[i + 2], data[i + 1], data[i]]
}

/// An RGB image, three bytes per pixel, row after row.
pub struct BitMap {
    pub pixels: Vec<u8>,
    pub width: usize,
    pub height: usize,
}

impl BitMap {
    /// The pixels cover every texel, and both sides fit in 32 bits.
    pub open spec fn wf(&self) -> bool {
        &&& self.width <= u32::MAX
        &&& self.height <= u32::MAX
        &&& self.pixels@.len() >= image_bytes(self.width as int, self.height as int, 3)
    }

    /// Decodes a PNG file. Succeeds exactly when the decoder accepts the
    /// bytes and yields at least three bytes per pixel; the bitmap then holds
    /// what the decoder returned.
    pub fn from_png(bytes: &[u8]) -> (r: Result<BitMap, String>)
        ensures
            r is Ok <==> decodes_to_rgb(bytes@),
            r matches Ok(b) ==> {
                &&& b.wf()
                &&& png_decoded(bytes@) == Some((b.pixels@, b.width as u32, b.height as u32))
            },
    {
        match decode_png(bytes) {
            Ok((pixels, w, h)) => {
                proof {
                    assert((w as int) * (h as int) <= (u32::MAX as int) * (u32::MAX as int)) by (nonlinear_arith)
                        requires 0 <= w <= u32::MAX, 0 <= h <= u32::MAX;
                }
                if (pixels.len() as u128) < (w as u128) * (h as u128) * 3 {
                    Err(String::from_str("image has fewer than three bytes per pixel"))
                } else {
                    Ok(BitMap { pixels, width: w as usize, height: h as usize })
                }
            },
            Err(e) => Err(e),
        }
    }

    /// The texel in column `col` and row `row`, channels reversed; black
    /// where the position is outside the image.
    pub fn sample(&self, col: i64, row: i64) -> (r: [u8; 3])
        requires
            self.wf(),
        ensures
            r == texel_or(self.pixels@, self.width as int, self.height as int, col as int, row as int, [0u8, 0, 0]),
    {
        if col < 0 || row < 0 || col as u64 >= self.width as u64 || row as u64 >= self.height as u64 {
            return [0, 0, 0];
        }
        proof {
            lemma_texel_in_bounds(col as int, row as int, self.width as int, self.height as int, self.pixels@.len() as int);
            assert(image_bytes(self.width as int, (row + 1) as int, 3) <= image_bytes(self.width as int, self.height as int, 3)) by (nonlinear_arith)
                requires row + 1 <= self.height;
        }
        read_texel(&self.pixels, self.width, col as usize, row as usize)
    }

    pub fn width(&self) -> (r: u32)
        requires
            self.wf(),
        ensures
            r == self.width,
    {
        self.width as u32
    }

    pub fn height(&self) -> (r: u32)
        requires
            self.wf(),
        ensures
            r == self.height,
    {
        self.height as u32
    }
}

/// Byte `i` of an RGBA image rewritten for an ARGB8888 texture: within each
/// pixel the first and third bytes trade places.
pub open spec fn argb_byte(rgba: Seq<u8>, i: int) -> u8 {
    if i % 4 == 0 {
        rgba[i + 2]
    } else if i % 4 == 2 {
        rgba[i - 2]
    } else {
        rgba[i]
    }
}

/// Pixels of a sprite sheet in the byte order of an ARGB8888 texture.
pub struct TextureData {
    pub pixels: Vec<u8>,
    pub width: u32,
    pub height: u32,
}

/// Decodes an RGBA PNG sprite sheet for upload to a texture. Succeeds
/// exactly when the decoder accepts the bytes and yields at least four bytes
/// per pixel; the result holds `4 * width * height` bytes with the red and
/// blue bytes of each pixel swapped.
pub fn texture_from_png(bytes: &[u8]) -> (r: Result<TextureData, String>)
    ensures
        r is Ok <==> decodes_to_rgba(bytes@),
        r matches Ok(t) ==> {
            let (p, w, h) = png_decoded(bytes@)->0;
            &&& t.width == w
            &&& t.height == h
            &&& t.pixels@.len() == image_bytes(w as int, h as int, 4)
            &&& forall|i: int| 0 <= i < t.pixels@.len() ==> #[trigger] t.pixels@[i] == argb_byte(p, i)
        },
{
    match decode_png(bytes) {
        Ok((rgba, w, h)) => {
            proof {
                assert((w as int) * (h as int) <= (u32::MAX as int) * (u32::MAX as int)) by (nonlinear_arith)
                    requires 0 <= w <= u32::MAX, 0 <= h <= u32::MAX;
            }
            if (rgba.len() as u128) < (w as u128) * (h as u128) * 4 {
                return Err(String::from_str("image has fewer than four bytes per pixel"));
            }
            let n: usize = ((w as u128) * (h as u128) * 4) as usize;
            let mut pixels: Vec<u8> = Vec::with_capacity(n);
            let mut i: usize = 0;
            while i < n
                invariant
                    n == image_bytes(w as int, h as int, 4),
                    n % 4 == 0,
                    n <= rgba@.len(),
                    i <= n,
                    pixels@.len() == i,
                    forall|j: int| 0 <= j < i ==> #[trigger] pixels@[j] == argb_byte(rgba@, j),
                decreases n - i,
            {
                let b = if i % 4 == 0 {
                    rgba[i + 2]
                } else if i % 4 == 2 {
                    rgba[i - 2]
                } else {
                    rgba[i]
                };
                pixels.push(b);
                i = i + 1;
            }
            Ok(TextureData { pixels, width: w, height: h })
        },
        Err(e) => Err(e),
    }
}

} // verus!
