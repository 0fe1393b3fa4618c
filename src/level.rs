//! The track: an RGB texel grid read by the rasterizer and by the karts'
//! surface test, and the detail textures laid over its colors.
use vstd::prelude::*;
use std::collections::HashMap;
use crate::bitmap::{
    decode_png, decodes_to_rgb, image_bytes, png_decoded, read_texel, texel_or, BitMap,
};

verus! {

broadcast use vstd::std_specs::hash::group_hash_axioms;

/// Color of texels off the track: grass.
pub const GRASS: [u8; 3] = [0, 255, 0];

/// Overlay key of road texels.
pub const ROAD_KEY: u32 = 0x707070ff;

/// Overlay key of grass texels.
pub const GRASS_KEY: u32 = 0x00ff00ff;

/// Overlay key of speed-boost texels.
pub const SPEEDBOOST_KEY: u32 = 0x00ffffff;

/// The track bitmap: `level_width * level_height` RGB texels, row after row.
pub struct Level {
    level_data: Vec<u8>,
    level_width: u32,
    level_height: u32,
}

impl Level {
    #[verifier::type_invariant]
    spec fn covers_grid(self) -> bool {
        self.level_data@.len() >= image_bytes(self.level_width as int, self.level_height as int, 3)
    }

    pub closed spec fn data(self) -> Seq<u8> {
        self.level_data@
    }

    pub closed spec fn width_spec(self) -> u32 {
        self.level_width
    }

    pub closed spec fn height_spec(self) -> u32 {
        self.level_height
    }

    /// Makes a level of the given texels. Fails exactly when the bytes do not
    /// cover `width * height` texels.
    pub fn from_texels(data: Vec<u8>, width: u32, height: u32) -> (r: Result<Level, String>)
        ensures
            r is Ok <==> data@.len() >= image_bytes(width as int, height as int, 3),
            r matches Ok(l) ==> l.data() == data@ && l.width_spec() == width && l.height_spec() == height,
    {
        proof {
            assert((width as int) * (height as int) <= (u32::MAX as int) * (u32::MAX as int)) by (nonlinear_arith)
                requires 0 <= width <= u32::MAX, 0 <= height <= u32::MAX;
        }
        if (data.len() as u128) < (width as u128) * (height as u128) * 3 {
            Err(String::from_str("level data does not cover its texels"))
        } else {
            Ok(Level { level_data: data, level_width: width, level_height: height })
        }
    }

    /// Loads the level from the bytes of a PNG file. Succeeds exactly when the
    /// decoder accepts them and yields at least three bytes per texel.
    pub fn load_from_png(bytes: &[u8]) -> (r: Result<Level, String>)
        ensures
            r is Ok <==> decodes_to_rgb(bytes@),
            r matches Ok(l) ==> png_decoded(bytes@) == Some((l.data(), l.width_spec(), l.height_spec())),
    {
        match decode_png(bytes) {
            Ok((data, w, h)) => Level::from_texels(data, w, h),
            Err(e) => Err(e),
        }
    }

    pub fn width(&self) -> (r: u32)
        ensures
            r == self.width_spec(),
    {
        self.level_width
    }

    pub fn height(&self) -> (r: u32)
        ensures
            r == self.height_spec(),
    {
        self.level_height
    }

    /// The color at texel `(x, z)`, channels reversed, for any texel of the
    /// grid; grass anywhere off it.
    pub fn sample_color(&self, x: i64, z: i64) -> (r: [u8; 3])
        ensures
            r == texel_or(self.data(), self.width_spec() as int, self.height_spec() as int, x as int, z as int, GRASS),
            !(0 <= x < self.width_spec() && 0 <= z < self.height_spec()) ==> r == GRASS,
    {
        proof {
            use_type_invariant(self);
        }
        if x < 0 || z < 0 || x >= self.level_width as i64 || z >= self.level_height as i64 {
            return GRASS;
        }
        proof {
            assert(image_bytes(self.level_width as int, (z + 1) as int, 3) <= image_bytes(self.level_width as int, self.level_height as int, 3)) by (nonlinear_arith)
                requires z + 1 <= self.level_height;
        }
        read_texel(&self.level_data, self.level_width as usize, x as usize, z as usize)
    }
}

/// Byte `i` of a row of sky pixels in the buffer's byte order.
pub open spec fn sky_byte(i: int) -> u8 {
    if i % 4 == 0 {
        255
    } else if i % 4 == 1 {
        128
    } else if i % 4 == 2 {
        32
    } else {
        255
    }
}

/// Number of rows at the top of a `buff_height`-row view that show sky.
pub open spec fn sky_rows(buff_height: int) -> int {
    if buff_height / 8 * 3 + 1 <= buff_height {
        buff_height / 8 * 3 + 1
    } else {
        buff_height
    }
}

/// Fills the top rows of a four-byte-per-pixel buffer, `buff_width` pixels
/// wide, with the sky color; every other byte is kept.
pub fn draw_sky(pixel_buffer: &mut Vec<u8>, buff_width: usize, buff_height: usize)
    requires
        old(pixel_buffer)@.len() >= image_bytes(buff_width as int, buff_height as int, 4),
    ensures
        final(pixel_buffer)@.len() == old(pixel_buffer)@.len(),
        forall|i: int|
            0 <= i < final(pixel_buffer)@.len() ==> #[trigger] final(pixel_buffer)@[i] == if i < sky_rows(
                buff_height as int,
            ) * buff_width * 4 {
                sky_byte(i)
            } else {
                old(pixel_buffer)@[i]
            },
{
    let rows: usize = if buff_height / 8 * 3 + 1 <= buff_height {
        buff_height / 8 * 3 + 1
    } else {
        buff_height
    };
    proof {
        assert(rows * buff_width * 4 <= image_bytes(buff_width as int, buff_height as int, 4)) by (nonlinear_arith)
            requires rows <= buff_height, 0 <= buff_width;
        assert(rows * buff_width <= rows * buff_width * 4) by (nonlinear_arith)
            requires 0 <= rows, 0 <= buff_width;
    }
    let len = pixel_buffer.len();
    assert(rows * buff_width * 4 <= len);
    let end = rows * buff_width * 4;
    let mut i: usize = 0;
    while i < end
        invariant
            end == sky_rows(buff_height as int) * buff_width * 4,
            end <= pixel_buffer@.len(),
            i <= end,
            pixel_buffer@.len() == old(pixel_buffer)@.len(),
            forall|j: int|
                0 <= j < pixel_buffer@.len() ==> #[trigger] pixel_buffer@[j] == if j < i {
                    sky_byte(j)
                } else {
                    old(pixel_buffer)@[j]
                },
        decreases end - i,
    {
        let b: u8 = if i % 4 == 0 {
            255
        } else if i % 4 == 1 {
            128
        } else if i % 4 == 2 {
            32
        } else {
            255
        };
        pixel_buffer.set(i, b);
        i = i + 1;
    }
}

/// The overlay key of a resolved color: its three bytes, most significant
/// first, above an opaque alpha byte.
pub open spec fn color_key_spec(color: [u8; 3]) -> u32 {
    (color[0] as int * 0x1000000 + color[1] as int * 0x10000 + color[2] as int * 0x100 + 0xff) as u32
}

pub fn color_key(color: [u8; 3]) -> (r: u32)
    ensures
        r == color_key_spec(color),
{
    let (a, b, c) = (color[0] as u32, color[1] as u32, color[2] as u32);
    let r = (a << 24u32) | (b << 16u32) | (c << 8u32) | 0xffu32;
    assert(r == a * 0x1000000 + b * 0x10000 + c * 0x100 + 0xff) by (bit_vector)
        requires
            a < 256 && b < 256 && c < 256,
            r == (a << 24u32) | (b << 16u32) | (c << 8u32) | 0xffu32,
    ;
    r
}

/// The detail texture registered for a resolved color, if any: a texture
/// applies only where the color's key matches a registered key exactly.
pub fn surface_texture<'a>(track_textures: &'a HashMap<u32, BitMap>, color: [u8; 3]) -> (r: Option<
    &'a BitMap,
>)
    ensures
        match r {
            Some(b) => track_textures@.contains_key(color_key_spec(color)) && *b == track_textures@[color_key_spec(color)],
            None => !track_textures@.contains_key(color_key_spec(color)),
        },
{
    let key = color_key(color);
    track_textures.get(&key)
}

/// The detail textures of the road, grass and speed-boost surfaces, decoded
/// from their PNG files and keyed by the colors they overlay. Fails exactly
/// when one of the files is not an RGB image.
pub fn load_track_textures(road_png: &[u8], grass_png: &[u8], speedboost_png: &[u8]) -> (r: Result<
    HashMap<u32, BitMap>,
    String,
>)
    ensures
        r is Ok <==> decodes_to_rgb(road_png@) && decodes_to_rgb(grass_png@) && decodes_to_rgb(speedboost_png@),
        r matches Ok(m) ==> {
            &&& m@.dom() == set![ROAD_KEY, GRASS_KEY, SPEEDBOOST_KEY]
            &&& forall|k: u32| #[trigger] m@.contains_key(k) ==> m@[k].wf()
            &&& png_decoded(road_png@) == Some((m@[ROAD_KEY].pixels@, m@[ROAD_KEY].width as u32, m@[ROAD_KEY].height as u32))
            &&& png_decoded(grass_png@) == Some((m@[GRASS_KEY].pixels@, m@[GRASS_KEY].width as u32, m@[GRASS_KEY].height as u32))
            &&& png_decoded(speedboost_png@) == Some((m@[SPEEDBOOST_KEY].pixels@, m@[SPEEDBOOST_KEY].width as u32, m@[SPEEDBOOST_KEY].height as u32))
        },
{
    let road = BitMap::from_png(road_png)?;
    let grass = BitMap::from_png(grass_png)?;
    let speedboost = BitMap::from_png(speedboost_png)?;
    let mut track_textures: HashMap<u32, BitMap> = HashMap::new();
    track_textures.insert(ROAD_KEY, road);
    track_textures.insert(GRASS_KEY, grass);
    track_textures.insert(SPEEDBOOST_KEY, speedboost);
    assert(track_textures@.dom() =~= set![ROAD_KEY, GRASS_KEY, SPEEDBOOST_KEY]);
    Ok(track_textures)
}

} // verus!
