//! The pets' spritesheets: decoding them, choosing one, and drawing one
//! frame of it scaled to the mascot's size.
use vstd::prelude::*;
use vstd::string::*;

use crate::pets_windows::animation::Frame;
use crate::pets_windows::canvas::{
    canvas_len, lemma_paint_same, lemma_paint_union, paint, put_pixel, single, solid,
};
use crate::text::{chars_equal, chars_of, extend_str, string_of};

verus! {

#[verifier::external_type_specification]
#[verifier::external_body]
pub struct ExImageError(image::ImageError);

/// Width in pixels of the drawn mascot.
pub const MASCOT_WIDTH: i32 = 112;

/// Height in pixels of the drawn mascot.
pub const MASCOT_HEIGHT: i32 = 121;

/// Columns of frames in a spritesheet.
pub const SHEET_COLUMNS: u32 = 8;

/// Rows of frames in a spritesheet.
pub const SHEET_ROWS: u32 = 9;

/// The width, height and RGBA pixels (row by row, four bytes each) that
/// the `image` crate decodes from `bytes`, its format told by the built-in
/// magic-byte signatures, or `None` when it cannot.
pub uninterp spec fn decoded_rgba(bytes: Seq<u8>) -> Option<(u32, u32, Seq<u8>)>;

/// Decodes an image with `image::guess_format` and
/// `image::load_from_memory_with_format`, then converts it with
/// `DynamicImage::to_rgba8`.
///
/// `guess_format` tells the format from the crate's built-in magic-byte
/// table, and with a built-in format the decoder consults no process-wide
/// hook, so the outcome depends on the bytes alone; bytes of no known
/// format fail as unsupported. The contract names that outcome
/// [`decoded_rgba`] of the bytes and adds the `ImageBuffer` invariant that
/// its buffer holds at least four bytes per pixel; which bytes decode, and
/// to what, is left to the `image` crate and not stated.
#[verifier::external_body]
fn decode_rgba8(bytes: &[u8]) -> (r: Result<(u32, u32, Vec<u8>), image::ImageError>)
    ensures
        match r {
            Ok((w, h, px)) => decoded_rgba(bytes@) == Some((w, h, px@)) && px@.len() >= 4 * w * h,
            Err(_) => decoded_rgba(bytes@) is None,
        },
{
    let format = image::guess_format(bytes)?;
    let image = image::load_from_memory_with_format(bytes, format)?.to_rgba8();
    let (width, height) = image.dimensions();
    Ok((width, height, image.into_raw()))
}

/// A decoded spritesheet: `SHEET_COLUMNS` by `SHEET_ROWS` frames.
pub struct PetSprite {
    pub id: String,
    pub pixels: Vec<u8>,
    pub width: u32,
    pub height: u32,
}

impl PetSprite {
    /// Every pixel present.
    pub open spec fn complete(&self) -> bool {
        self.pixels@.len() >= 4 * self.width * self.height
    }

    /// A drawable size, and every pixel present.
    pub open spec fn well_formed(&self) -> bool {
        &&& drawable_size(self.width, self.height)
        &&& self.complete()
    }

    /// Whether the sheet can be drawn.
    pub fn drawable(&self) -> (r: bool)
        ensures
            r == self.well_formed(),
    {
        if self.width == 0 || self.height == 0 {
            return false;
        }
        assert((self.width as u64) * (self.height as u64) <= 0xFFFF_FFFF * 0xFFFF_FFFF) by (nonlinear_arith)
            requires
                self.width <= 0xFFFF_FFFF,
                self.height <= 0xFFFF_FFFF,
        ;
        let area: u64 = (self.width as u64) * (self.height as u64);
        assert(area == self.width * self.height);
        if area > 0x3FFF_FFFF {
            assert(4 * self.width * self.height > u32::MAX) by (nonlinear_arith)
                requires
                    self.width * self.height > 0x3FFF_FFFF,
            ;
            return false;
        }
        let column_reach: u64 = ((MASCOT_WIDTH - 1) as u64) * ((self.width / SHEET_COLUMNS) as u64);
        let row_reach: u64 = ((MASCOT_HEIGHT - 1) as u64) * ((self.height / SHEET_ROWS) as u64);
        assert(column_reach == (MASCOT_WIDTH - 1) * (self.width / SHEET_COLUMNS));
        assert(row_reach == (MASCOT_HEIGHT - 1) * (self.height / SHEET_ROWS));
        if column_reach > 0xFFFF_FFFF || row_reach > 0xFFFF_FFFF {
            return false;
        }
        assert(4 * area == 4 * self.width * self.height) by (nonlinear_arith)
            requires
                area == self.width * self.height,
        ;
        (self.pixels.len() as u64) >= 4 * area
    }
}

/// A spritesheet as it is shipped: the pet's id and the encoded image.
pub struct PetAsset {
    pub id: String,
    pub bytes: Vec<u8>,
}

/// Why a spritesheet could not be loaded.
pub enum SpriteError {
    /// The image could not be decoded.
    Decode { id: String, error: image::ImageError },
}

impl SpriteError {
    /// The text of the error, before the decoder's own account of it.
    pub fn message(&self) -> (m: String)
        ensures
            m@ == match self {
                SpriteError::Decode { id, .. } => "failed to decode "@ + id@
                    + " pet spritesheet"@,
            },
    {
        let mut v: Vec<char> = Vec::new();
        match self {
            SpriteError::Decode { id, .. } => {
                extend_str(&mut v, "failed to decode ");
                extend_str(&mut v, id.as_str());
                extend_str(&mut v, " pet spritesheet");
            },
        }
        string_of(&v)
    }
}

/// Whether a sheet of `w` by `h` pixels can be drawn: it is not empty
/// (a frame is read from its first pixel), every byte offset into it fits
/// in a `u32`, and so do the scaled offsets within a frame's cell, as the
/// drawing computes them.
pub open spec fn drawable_size(w: u32, h: u32) -> bool {
    &&& 1 <= w
    &&& 1 <= h
    &&& 4 * w * h <= u32::MAX
    &&& (MASCOT_WIDTH - 1) * (w / SHEET_COLUMNS) <= u32::MAX
    &&& (MASCOT_HEIGHT - 1) * (h / SHEET_ROWS) <= u32::MAX
}

/// Whether `bytes` decode to a spritesheet.
pub open spec fn sheet_loads(bytes: Seq<u8>) -> bool {
    decoded_rgba(bytes) is Some
}

/// The spritesheet of pet `id` decoded from `bytes`, as [`load_pet`] gives it.
pub open spec fn loaded_as(p: PetSprite, id: Seq<char>, bytes: Seq<u8>) -> bool {
    &&& p.id@ == id
    &&& decoded_rgba(bytes) == Some((p.width, p.height, p.pixels@))
    &&& p.complete()
}

/// Decodes the spritesheet of pet `id`.
pub fn load_pet(id: &str, bytes: &[u8]) -> (r: Result<PetSprite, SpriteError>)
    ensures
        match r {
            Ok(p) => loaded_as(p, id@, bytes@),
            Err(SpriteError::Decode { id: i, .. }) => i@ == id@,
        },
        r is Ok <==> sheet_loads(bytes@),
{
    match decode_rgba8(bytes) {
        Ok((width, height, pixels)) => Ok(PetSprite { id: String::from_str(id), pixels, width, height }),
        Err(error) => Err(SpriteError::Decode { id: String::from_str(id), error }),
    }
}

/// Decodes every spritesheet in `assets`, in order, stopping at the first
/// that fails and reporting it.
pub fn load_pets(assets: &Vec<PetAsset>) -> (r: Result<Vec<PetSprite>, SpriteError>)
    ensures
        match r {
            Ok(sprites) => sprites@.len() == assets@.len() && forall|i: int|
                0 <= i < sprites@.len() ==> loaded_as(
                    #[trigger] sprites@[i],
                    assets@[i].id@,
                    assets@[i].bytes@,
                ),
            Err(SpriteError::Decode { id, .. }) => exists|i: int|
                #![trigger assets@[i]]
                0 <= i < assets@.len() && (forall|j: int|
                    0 <= j < i ==> sheet_loads(#[trigger] assets@[j].bytes@)) && id@ == assets@[i].id@
                    && !sheet_loads(assets@[i].bytes@),
        },
        r is Ok <==> forall|i: int| 0 <= i < assets@.len() ==> sheet_loads(#[trigger] assets@[i].bytes@),
{
    let mut sprites: Vec<PetSprite> = Vec::new();
    let mut i: usize = 0;
    while i < assets.len()
        invariant
            i <= assets@.len(),
            sprites@.len() == i,
            forall|j: int| 0 <= j < i ==> sheet_loads(#[trigger] assets@[j].bytes@),
            forall|j: int|
                0 <= j < i ==> loaded_as(#[trigger] sprites@[j], assets@[j].id@, assets@[j].bytes@),
        decreases assets@.len() - i,
    {
        let asset = &assets[i];
        match load_pet(asset.id.as_str(), asset.bytes.as_slice()) {
            Ok(sprite) => sprites.push(sprite),
            Err(e) => {
                assert(!sheet_loads(assets@[i as int].bytes@));
                return Err(e);
            },
        }
        i = i + 1;
    }
    Ok(sprites)
}

/// Index of the first sprite with id `selected`, or `0` when there is none.
pub open spec fn sprite_index_for(ids: Seq<Seq<char>>, selected: Seq<char>) -> int {
    if exists|i: int| 0 <= i < ids.len() && ids[i] == selected {
        choose|i: int|
            0 <= i < ids.len() && ids[i] == selected && forall|j: int|
                0 <= j < i ==> ids[j] != selected
    } else {
        0
    }
}

/// The ids of `sprites`.
pub open spec fn sprite_ids(sprites: Seq<PetSprite>) -> Seq<Seq<char>> {
    Seq::new(sprites.len(), |i: int| sprites[i].id@)
}

/// Chooses the sprite of pet `selected`: the first with that id, else the
/// first sprite.
pub fn sprite_index(sprites: &Vec<PetSprite>, selected: &str) -> (i: usize)
    requires
        sprites@.len() >= 1,
    ensures
        i < sprites@.len(),
        i as int == sprite_index_for(sprite_ids(sprites@), selected@),
{
    let wanted = chars_of(selected);
    let mut i: usize = 0;
    while i < sprites.len()
        invariant
            i <= sprites@.len(),
            wanted@ == selected@,
            forall|j: int| 0 <= j < i ==> sprites@[j].id@ != selected@,
        decreases sprites@.len() - i,
    {
        if chars_equal(&chars_of(sprites[i].id.as_str()), &wanted) {
            proof {
                let ids = sprite_ids(sprites@);
                assert(ids[i as int] == selected@);
                assert forall|j: int| 0 <= j < i implies ids[j] != selected@ by {
                    assert(ids[j] == sprites@[j].id@);
                }
                let k = choose|k: int|
                    0 <= k < ids.len() && ids[k] == selected@ && forall|j: int|
                        0 <= j < k ==> ids[j] != selected@;
                if k < i {
                    assert(ids[k] == sprites@[k].id@);
                } else if k > i {
                    assert(ids[i as int] != selected@);
                }
            }
            return i;
        }
        i = i + 1;
    }
    let ghost ids = sprite_ids(sprites@);
    assert forall|k: int| 0 <= k < ids.len() implies ids[k] != selected@ by {
        assert(ids[k] == sprites@[k].id@);
    }
    0
}

/// Spritesheet column of the source pixel shown at mascot column `out_x`.
pub open spec fn source_x(width: u32, frame: Frame, out_x: int) -> int {
    let sw = (width / SHEET_COLUMNS) as int;
    frame.col * sw + (out_x * sw) / (MASCOT_WIDTH as int)
}

/// Spritesheet row of the source pixel shown at mascot row `out_y`.
pub open spec fn source_y(height: u32, frame: Frame, out_y: int) -> int {
    let sh = (height / SHEET_ROWS) as int;
    frame.row * sh + (out_y * sh) / (MASCOT_HEIGHT as int)
}

/// The mascot's area when drawn at `(x, y)`.
pub open spec fn mascot_area(x: int, y: int) -> spec_fn(int, int) -> bool {
    |px: int, py: int| x <= px < x + MASCOT_WIDTH && y <= py < y + MASCOT_HEIGHT
}

/// The mascot's area at `(x, y)` in rows before `out_y`, and in row `out_y`
/// before column `out_x`.
pub open spec fn mascot_before(x: int, y: int, out_x: int, out_y: int) -> spec_fn(
    int,
    int,
) -> bool {
    |px: int, py: int|
        x <= px < x + MASCOT_WIDTH && y <= py < y + MASCOT_HEIGHT && (py - y < out_y || (py - y
            == out_y && px - x < out_x))
}

/// The colour of each pixel of the mascot drawn at `(x, y)`: the sheet
/// pixel that the frame's cell maps it to, scaled nearest-neighbour.
pub open spec fn mascot_colors(
    pixels: Seq<u8>,
    width: u32,
    height: u32,
    frame: Frame,
    x: int,
    y: int,
) -> spec_fn(int, int) -> Seq<u8> {
    |px: int, py: int|
        {
            let src = (source_y(height, frame, py - y) * width + source_x(width, frame, px - x))
                * 4;
            pixels.subrange(src, src + 4)
        }
}

/// The canvas after drawing frame `frame` of `sprite` at `(x, y)`.
pub open spec fn sprite_canvas(
    canvas: Seq<u8>,
    sprite: PetSprite,
    frame: Frame,
    x: int,
    y: int,
) -> Seq<u8> {
    paint(
        canvas,
        mascot_area(x, y),
        mascot_colors(sprite.pixels@, sprite.width, sprite.height, frame, x, y),
    )
}

/// A scaled coordinate stays within its cell: `out * side / size < side`.
proof fn lemma_scaled_in_cell(out: int, side: int, size: int)
    requires
        0 <= out < size,
        0 <= side,
        size > 0,
    ensures
        0 <= (out * side) / size,
        side > 0 ==> (out * side) / size < side,
        side == 0 ==> (out * side) / size == 0,
{
    assert(0 <= out * side) by (nonlinear_arith)
        requires
            0 <= out,
            0 <= side,
    ;
    assert(out * side <= size * side) by (nonlinear_arith)
        requires
            out < size,
            0 <= side,
    ;
    vstd::arithmetic::div_mod::lemma_div_pos_is_pos(out * side, size);
    if side > 0 {
        assert(out * side < size * side) by (nonlinear_arith)
            requires
                out < size,
                0 < side,
        ;
        assert(size * side == side * size) by (nonlinear_arith);
        vstd::arithmetic::div_mod::lemma_div_by_multiple_is_strongly_ordered(
            out * side,
            side * size,
            side,
            size,
        );
        vstd::arithmetic::div_mod::lemma_div_by_multiple(side, size);
    }
}

/// Draws frame `frame` of `sprite` with its top-left corner at `(x, y)`,
/// scaled to the mascot's size; pixels outside the window are skipped.
pub fn draw_sprite_frame(canvas: &mut Vec<u8>, sprite: &PetSprite, frame: Frame, x: i32, y: i32)
    requires
        old(canvas)@.len() == canvas_len(),
        sprite.well_formed(),
        frame.row < SHEET_ROWS,
        frame.col < SHEET_COLUMNS,
        x + (MASCOT_WIDTH - 1) <= i32::MAX,
        y + (MASCOT_HEIGHT - 1) <= i32::MAX,
    ensures
        final(canvas)@ == sprite_canvas(old(canvas)@, *sprite, frame, x as int, y as int),
{
    let ghost start = canvas@;
    let ghost colors = mascot_colors(
        sprite.pixels@,
        sprite.width,
        sprite.height,
        frame,
        x as int,
        y as int,
    );
    let source_width: u32 = sprite.width / SHEET_COLUMNS;
    let source_height: u32 = sprite.height / SHEET_ROWS;
    assert(frame.col * source_width + source_width <= sprite.width) by (nonlinear_arith)
        requires
            frame.col < 8,
            source_width == sprite.width / 8,
    ;
    assert(frame.row * source_height + source_height <= sprite.height) by (nonlinear_arith)
        requires
            frame.row < 9,
            source_height == sprite.height / 9,
    ;
    let sx0: u32 = frame.col * source_width;
    let sy0: u32 = frame.row * source_height;
    proof {
        lemma_paint_same(start, |px: int, py: int| false, mascot_before(x as int, y as int, 0, 0), colors, colors);
        crate::pets_windows::canvas::lemma_paint_nothing(start, colors);
    }
    let mut out_y: i32 = 0;
    while out_y < MASCOT_HEIGHT
        invariant
            sprite.well_formed(),
            x + (MASCOT_WIDTH - 1) <= i32::MAX,
            y + (MASCOT_HEIGHT - 1) <= i32::MAX,
            source_width == sprite.width / SHEET_COLUMNS,
            source_height == sprite.height / SHEET_ROWS,
            sx0 == frame.col * source_width,
            sy0 == frame.row * source_height,
            sx0 + source_width <= sprite.width,
            sy0 + source_height <= sprite.height,
            colors == mascot_colors(sprite.pixels@, sprite.width, sprite.height, frame, x as int, y as int),
            0 <= out_y <= MASCOT_HEIGHT,
            canvas@.len() == canvas_len(),
            canvas@ == paint(start, mascot_before(x as int, y as int, 0, out_y as int), colors),
        decreases MASCOT_HEIGHT - out_y,
    {
        proof {
            lemma_scaled_in_cell(out_y as int, source_height as int, MASCOT_HEIGHT as int);
        }
        assert((out_y as u32) * source_height <= (MASCOT_HEIGHT - 1) * source_height) by (nonlinear_arith)
            requires
                0 <= out_y < MASCOT_HEIGHT,
        ;
        let sy: u32 = sy0 + ((out_y as u32) * source_height) / (MASCOT_HEIGHT as u32);
        proof {
            if source_height == 0 {
                assert(frame.row * source_height == 0) by (nonlinear_arith)
                    requires
                        source_height == 0,
                ;
            }
        }
        let mut out_x: i32 = 0;
        while out_x < MASCOT_WIDTH
            invariant
                sprite.well_formed(),
                x + (MASCOT_WIDTH - 1) <= i32::MAX,
                y + (MASCOT_HEIGHT - 1) <= i32::MAX,
                source_width == sprite.width / SHEET_COLUMNS,
                sx0 == frame.col * source_width,
                sx0 + source_width <= sprite.width,
                sy < sprite.height,
                sy as int == source_y(sprite.height, frame, out_y as int),
                colors == mascot_colors(sprite.pixels@, sprite.width, sprite.height, frame, x as int, y as int),
                0 <= out_y < MASCOT_HEIGHT,
                0 <= out_x <= MASCOT_WIDTH,
                canvas@.len() == canvas_len(),
                canvas@ == paint(
                    start,
                    mascot_before(x as int, y as int, out_x as int, out_y as int),
                    colors,
                ),
            decreases MASCOT_WIDTH - out_x,
        {
            proof {
                lemma_scaled_in_cell(out_x as int, source_width as int, MASCOT_WIDTH as int);
            }
            assert((out_x as u32) * source_width <= (MASCOT_WIDTH - 1) * source_width) by (nonlinear_arith)
                requires
                    0 <= out_x < MASCOT_WIDTH,
            ;
            let sx: u32 = sx0 + ((out_x as u32) * source_width) / (MASCOT_WIDTH as u32);
            proof {
                if source_width == 0 {
                    assert(frame.col * source_width == 0) by (nonlinear_arith)
                        requires
                            source_width == 0,
                    ;
                }
            }
            assert((sy * sprite.width + sx) * 4 + 4 <= 4 * sprite.width * sprite.height)
                by (nonlinear_arith)
                requires
                    sy < sprite.height,
                    sx < sprite.width,
            ;
            let src: usize = ((sy * sprite.width + sx) * 4) as usize;
            let color: [u8; 4] = [
                sprite.pixels[src],
                sprite.pixels[src + 1],
                sprite.pixels[src + 2],
                sprite.pixels[src + 3],
            ];
            let ghost before = mascot_before(x as int, y as int, out_x as int, out_y as int);
            let ghost after = mascot_before(x as int, y as int, out_x + 1, out_y as int);
            let ghost here = single(x + out_x, y + out_y);
            put_pixel(canvas, x + out_x, y + out_y, color);
            proof {
                assert(color@ == colors(x + out_x, y + out_y));
                lemma_paint_same(start, before, before, colors, colors);
                lemma_paint_same(
                    paint(start, before, colors),
                    here,
                    here,
                    solid(color),
                    colors,
                );
                lemma_paint_union(start, before, here, colors);
                lemma_paint_same(
                    start,
                    |px: int, py: int| before(px, py) || here(px, py),
                    after,
                    colors,
                    colors,
                );
            }
            out_x = out_x + 1;
        }
        proof {
            lemma_paint_same(
                start,
                mascot_before(x as int, y as int, MASCOT_WIDTH as int, out_y as int),
                mascot_before(x as int, y as int, 0, out_y + 1),
                colors,
                colors,
            );
        }
        out_y = out_y + 1;
    }
    proof {
        lemma_paint_same(
            start,
            mascot_before(x as int, y as int, 0, MASCOT_HEIGHT as int),
            mascot_area(x as int, y as int),
            colors,
            colors,
        );
    }
}

} // verus!
