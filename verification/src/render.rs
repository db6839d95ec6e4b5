//! The renderer of the example core. It paints a frame from a snapshot of
//! the simulation: a background image, a white pixel where the player
//! stands, and a sprite for each object.

use vstd::prelude::*;
use crate::config::{AV_SCREEN_HEIGHT, AV_SCREEN_WIDTH};
use crate::frame_buffer::{sized, ColorDepth, FrameBuffer, FrameModel};
use crate::game::{Body, Snapshot, SnapshotModel, LIVE_OBJECTS};

verus! {

/// Width of the sprite in pixels.
pub const SPRITE_WIDTH: u32 = 96;

/// Height of the sprite in pixels.
pub const SPRITE_HEIGHT: u32 = 19;

/// The number of bytes of the sprite, whose pixels take two bytes each.
pub const SPRITE_BYTES: usize = 3648;

/// The number of bytes of the background image, whose pixels take two bytes
/// each.
pub const IMAGE_BYTES: usize = 153600;

/// Whether a frame buffer is the screen of the core, at 16 bit.
pub open spec fn is_core_screen(frame: FrameModel) -> bool {
    &&& frame.width == AV_SCREEN_WIDTH
    &&& frame.height == AV_SCREEN_HEIGHT
    &&& frame.depth == ColorDepth::Bits16
    &&& sized(frame)
}

/// The pixel in which a position lies: the position over 256, rounded
/// towards zero.
pub open spec fn pixel_of(position: int) -> int {
    if position >= 0 {
        position / 256
    } else {
        -((-position) / 256)
    }
}

/// Whether a pixel of the sprite is drawn: it is unless both its bytes are
/// zero.
pub open spec fn opaque(sprite: Seq<u8>, pixel: int) -> bool {
    sprite[2 * pixel] != 0 || sprite[2 * pixel + 1] != 0
}

/// The pixel of the sprite that lies over a pixel of the screen when the
/// sprite's top left corner is at column `x` and row `y`, where there is
/// one.
pub open spec fn sprite_pixel_over(x: int, y: int, column: int, row: int) -> Option<int> {
    if 0 <= column - x < SPRITE_WIDTH && 0 <= row - y < SPRITE_HEIGHT {
        Some((column - x) + (row - y) * SPRITE_WIDTH)
    } else {
        None
    }
}

/// One byte of the screen after the sprite has been drawn with its top left
/// corner at column `x` and row `y`: the byte of the sprite where a drawn
/// pixel of the sprite lies over it, else the byte that was there.
pub open spec fn blitted_byte(data: Seq<u8>, sprite: Seq<u8>, x: int, y: int, at: int) -> u8 {
    let column = (at / 2) % (AV_SCREEN_WIDTH as int);
    let row = (at / 2) / (AV_SCREEN_WIDTH as int);
    match sprite_pixel_over(x, y, column, row) {
        Some(pixel) => if opaque(sprite, pixel) {
            sprite[2 * pixel + at % 2]
        } else {
            data[at]
        },
        None => data[at],
    }
}

/// The bytes of the screen after the sprite has been drawn with its top left
/// corner at column `x` and row `y`. What of the sprite lies beyond the
/// edges of the screen is left out.
pub open spec fn blitted(data: Seq<u8>, sprite: Seq<u8>, x: int, y: int) -> Seq<u8> {
    Seq::new(data.len(), |at: int| blitted_byte(data, sprite, x, y, at))
}

/// The bytes of the screen after the pixel at a column and row has been made
/// white.
pub open spec fn with_pixel(data: Seq<u8>, column: int, row: int) -> Seq<u8> {
    let pixel = column + row * AV_SCREEN_WIDTH;
    data.update(2 * pixel, 0xffu8).update(2 * pixel + 1, 0xffu8)
}

/// The bytes of the screen after the first `count` objects have been drawn,
/// in their order.
pub open spec fn with_objects(data: Seq<u8>, sprite: Seq<u8>, bodies: Seq<Body>, count: nat)
    -> Seq<u8>
    decreases count,
{
    if count == 0 {
        data
    } else {
        blitted(
            with_objects(data, sprite, bodies, (count - 1) as nat),
            sprite,
            pixel_of(bodies[count - 1].x),
            pixel_of(bodies[count - 1].y),
        )
    }
}

/// The bytes of the screen that shows a snapshot: the background image, on
/// it the player's pixel, on that the objects.
pub open spec fn rendered(snapshot: SnapshotModel, image: Seq<u8>, sprite: Seq<u8>) -> Seq<u8> {
    with_objects(
        with_pixel(image, pixel_of(snapshot.x), pixel_of(snapshot.y)),
        sprite,
        snapshot.gobj,
        snapshot.gobj_idx as nat,
    )
}

/// The screen while the sprite is being drawn column by column: of the
/// sprite's pixels, those left of column `done_columns` are drawn, and in
/// that column those above row `done_rows`.
spec fn blit_progress(
    data: Seq<u8>,
    sprite: Seq<u8>,
    x: int,
    y: int,
    done_columns: int,
    done_rows: int,
) -> Seq<u8> {
    Seq::new(
        data.len(),
        |at: int|
            {
                let column = (at / 2) % (AV_SCREEN_WIDTH as int);
                let row = (at / 2) / (AV_SCREEN_WIDTH as int);
                if column - x < done_columns || (column - x == done_columns && row - y
                    < done_rows) {
                    blitted_byte(data, sprite, x, y, at)
                } else {
                    data[at]
                }
            },
    )
}

/// How the sprite is cut at the edges of the screen along one axis: the
/// first pixel of the sprite that is on the screen, the pixel of the screen
/// on which it lies, and the pixel of the sprite at which drawing ends.
spec fn clipped(corner: int, start: int, origin: int, end: int, extent: int, screen: int) -> bool {
    &&& origin - start == corner
    &&& start == 0 || origin == 0
    &&& 0 <= start < end <= extent
    &&& 0 <= origin
    &&& origin + end <= screen + start
    &&& end == if origin + extent >= screen {
        screen - origin
    } else {
        extent
    }
}

/// The pixel in which a position lies.
pub fn to_pixel(position: i32) -> (pixel: i32)
    ensures
        pixel == pixel_of(position as int),
{
    if position >= 0 {
        position / 256
    } else {
        let distance: i64 = -(position as i64);
        let pixels: i64 = distance / 256;
        (-pixels) as i32
    }
}

/// Copies the background image over the whole screen.
pub fn image_loader(frame: &mut FrameBuffer, image: &[u8])
    requires
        is_core_screen(old(frame)@),
        image@.len() == IMAGE_BYTES,
    ensures
        final(frame)@ == (FrameModel { data: image@, ..old(frame)@ }),
{
    frame.fill_from(image);
    assert(image@.take(IMAGE_BYTES as int) =~= image@);
}

/// Makes the pixel at a column and row white.
pub fn write_pixel(frame: &mut FrameBuffer, x: u32, y: u32)
    requires
        is_core_screen(old(frame)@),
        x < AV_SCREEN_WIDTH,
        y < AV_SCREEN_HEIGHT,
    ensures
        final(frame)@ == (FrameModel {
            data: with_pixel(old(frame)@.data, x as int, y as int),
            ..old(frame)@
        }),
{
    let pixel = x as usize + y as usize * AV_SCREEN_WIDTH as usize;
    frame.set_byte(2 * pixel, 0xff);
    frame.set_byte(2 * pixel + 1, 0xff);
}

/// Draws the sprite with its top left corner at column `x` and row `y`.
/// Pixels of the sprite whose bytes are both zero are not drawn, and what
/// lies beyond the edges of the screen is left out.
pub fn blit_sprite(frame: &mut FrameBuffer, sprite: &[u8], x: i32, y: i32)
    requires
        is_core_screen(old(frame)@),
        sprite@.len() == SPRITE_BYTES,
    ensures
        final(frame)@ == (FrameModel {
            data: blitted(old(frame)@.data, sprite@, x as int, y as int),
            ..old(frame)@
        }),
{
    let ghost before = frame@;
    let ghost corner_x = x as int;
    let ghost corner_y = y as int;
    if x <= -(SPRITE_WIDTH as i32) || y <= -(SPRITE_HEIGHT as i32) {
        assert(before.data =~= blitted(before.data, sprite@, corner_x, corner_y));
        return ;
    }
    let mut startx: u32 = 0;
    let mut starty: u32 = 0;
    let mut x = x;
    let mut y = y;
    if x < 0 {
        startx = (-x) as u32;
        x = 0;
    }
    if y < 0 {
        starty = (-y) as u32;
        y = 0;
    }
    let x = x as u32;
    let y = y as u32;
    let mut w: u32 = SPRITE_WIDTH;
    let mut h: u32 = SPRITE_HEIGHT;
    if x > AV_SCREEN_WIDTH || y > AV_SCREEN_HEIGHT {
        assert(before.data =~= blitted(before.data, sprite@, corner_x, corner_y));
        return ;
    }
    if x + w >= AV_SCREEN_WIDTH {
        w = AV_SCREEN_WIDTH - x;
    }
    if y + h >= AV_SCREEN_HEIGHT {
        h = AV_SCREEN_HEIGHT - y;
    }
    if startx >= w || starty >= h {
        assert(before.data =~= blitted(before.data, sprite@, corner_x, corner_y));
        return ;
    }
    assert(before.data =~= blit_progress(
        before.data,
        sprite@,
        corner_x,
        corner_y,
        startx as int,
        0,
    ));
    let mut ix: u32 = startx;
    while ix < w
        invariant
            startx <= ix <= w,
            clipped(
                corner_x,
                startx as int,
                x as int,
                w as int,
                SPRITE_WIDTH as int,
                AV_SCREEN_WIDTH as int,
            ),
            clipped(
                corner_y,
                starty as int,
                y as int,
                h as int,
                SPRITE_HEIGHT as int,
                AV_SCREEN_HEIGHT as int,
            ),
            sprite@.len() == SPRITE_BYTES,
            is_core_screen(before),
            frame@ == (FrameModel {
                data: blit_progress(before.data, sprite@, corner_x, corner_y, ix as int, 0),
                ..before
            }),
        decreases w - ix,
    {
        assert(frame@.data =~= blit_progress(
            before.data,
            sprite@,
            corner_x,
            corner_y,
            ix as int,
            starty as int,
        ));
        let mut iy: u32 = starty;
        while iy < h
            invariant
                startx <= ix < w,
                starty <= iy <= h,
                clipped(
                    corner_x,
                    startx as int,
                    x as int,
                    w as int,
                    SPRITE_WIDTH as int,
                    AV_SCREEN_WIDTH as int,
                ),
                clipped(
                    corner_y,
                    starty as int,
                    y as int,
                    h as int,
                    SPRITE_HEIGHT as int,
                    AV_SCREEN_HEIGHT as int,
                ),
                sprite@.len() == SPRITE_BYTES,
                is_core_screen(before),
                frame@ == (FrameModel {
                    data: blit_progress(
                        before.data,
                        sprite@,
                        corner_x,
                        corner_y,
                        ix as int,
                        iy as int,
                    ),
                    ..before
                }),
            decreases h - iy,
        {
            let source = ix as usize + iy as usize * SPRITE_WIDTH as usize;
            let low = sprite[2 * source];
            let high = sprite[2 * source + 1];
            let column = x + ix - startx;
            let row = y + iy - starty;
            let target = column as usize + row as usize * AV_SCREEN_WIDTH as usize;
            assert(sprite_pixel_over(corner_x, corner_y, column as int, row as int) == Some(
                source as int,
            ));
            if low != 0 || high != 0 {
                frame.set_byte(2 * target, low);
                frame.set_byte(2 * target + 1, high);
            }
            assert(frame@.data =~= blit_progress(
                before.data,
                sprite@,
                corner_x,
                corner_y,
                ix as int,
                iy + 1,
            ));
            iy += 1;
        }
        assert(frame@.data =~= blit_progress(
            before.data,
            sprite@,
            corner_x,
            corner_y,
            ix + 1,
            0,
        ));
        ix += 1;
    }
    assert(frame@.data =~= blitted(before.data, sprite@, corner_x, corner_y));
}

/// The images cannot be used.
#[derive(Clone, Copy, Debug, PartialEq, Eq)]
pub enum AssetError {
    /// The background image does not hold one 16 bit pixel for each pixel of
    /// the screen.
    ImageSize,
    /// The sprite does not hold one 16 bit pixel for each of its pixels.
    SpriteSize,
}

/// The frame cannot be painted.
#[derive(Clone, Copy, Debug, PartialEq, Eq)]
pub enum RenderError {
    /// The frame buffer is not the screen of the core at 16 bit.
    FrameMismatch,
}

/// The images as the contracts see them.
pub struct AssetsModel {
    pub image: Seq<u8>,
    pub sprite: Seq<u8>,
}

/// The images that the renderer draws: the background and the sprite.
pub struct Assets {
    image: Vec<u8>,
    sprite: Vec<u8>,
}

impl View for Assets {
    type V = AssetsModel;

    closed spec fn view(&self) -> AssetsModel {
        AssetsModel { image: self.image@, sprite: self.sprite@ }
    }
}

impl Assets {
    #[verifier::type_invariant]
    closed spec fn well_formed(&self) -> bool {
        self.image@.len() == IMAGE_BYTES && self.sprite@.len() == SPRITE_BYTES
    }

    /// The images, where each has the size that the renderer draws.
    pub fn new(image: Vec<u8>, sprite: Vec<u8>) -> (result: Result<Assets, AssetError>)
        ensures
            match result {
                Ok(assets) => image@.len() == IMAGE_BYTES && sprite@.len() == SPRITE_BYTES
                    && assets@ == (AssetsModel { image: image@, sprite: sprite@ }),
                Err(AssetError::ImageSize) => image@.len() != IMAGE_BYTES,
                Err(AssetError::SpriteSize) => image@.len() == IMAGE_BYTES && sprite@.len()
                    != SPRITE_BYTES,
            },
    {
        if image.len() != IMAGE_BYTES {
            Err(AssetError::ImageSize)
        } else if sprite.len() != SPRITE_BYTES {
            Err(AssetError::SpriteSize)
        } else {
            Ok(Assets { image, sprite })
        }
    }

    /// The bytes of the background image.
    pub fn image(&self) -> (image: &[u8])
        ensures
            image@ == self@.image,
            image@.len() == IMAGE_BYTES,
    {
        proof {
            use_type_invariant(self);
        }
        self.image.as_slice()
    }

    /// The bytes of the sprite.
    pub fn sprite(&self) -> (sprite: &[u8])
        ensures
            sprite@ == self@.sprite,
            sprite@.len() == SPRITE_BYTES,
    {
        proof {
            use_type_invariant(self);
        }
        self.sprite.as_slice()
    }
}

/// Whether a frame buffer is the screen of the core, at 16 bit.
pub fn fits_core(frame: &FrameBuffer) -> (fits: bool)
    ensures
        fits == is_core_screen(frame@),
{
    let deep = match frame.depth() {
        ColorDepth::Bits16 => true,
        ColorDepth::Bits32 => false,
    };
    deep && frame.width() == AV_SCREEN_WIDTH && frame.height() == AV_SCREEN_HEIGHT
}

/// Paints the frame that shows a snapshot. A frame buffer that is not the
/// screen of the core is refused and left as it is.
pub fn render_video(snapshot: &Snapshot, frame: &mut FrameBuffer, assets: &Assets) -> (result:
    Result<(), RenderError>)
    ensures
        match result {
            Ok(_) => is_core_screen(old(frame)@) && final(frame)@ == (FrameModel {
                data: rendered(snapshot@, assets@.image, assets@.sprite),
                ..old(frame)@
            }),
            Err(error) => error == RenderError::FrameMismatch && !is_core_screen(old(frame)@)
                && final(frame)@ == old(frame)@,
        },
{
    if !fits_core(frame) {
        return Err(RenderError::FrameMismatch);
    }
    let ghost before = frame@;
    let sprite = assets.sprite();
    image_loader(frame, assets.image());
    let snapshotx = snapshot.x();
    let snapshoty = snapshot.y();
    write_pixel(frame, snapshotx / 256, snapshoty / 256);
    let ghost base = frame@.data;
    let count = snapshot.gobj_idx();
    let mut i: u32 = 0;
    while i < count
        invariant
            i <= count <= LIVE_OBJECTS,
            count == snapshot@.gobj_idx,
            snapshot@.gobj.len() == LIVE_OBJECTS,
            sprite@ == assets@.sprite,
            sprite@.len() == SPRITE_BYTES,
            is_core_screen(before),
            is_core_screen(frame@),
            frame@ == (FrameModel {
                data: with_objects(base, sprite@, snapshot@.gobj, i as nat),
                ..before
            }),
        decreases count - i,
    {
        let object = snapshot.object(i as usize);
        blit_sprite(frame, sprite, to_pixel(object.x()), to_pixel(object.y()));
        i += 1;
    }
    Ok(())
}

} // verus!
