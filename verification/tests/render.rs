use rust_libretro::frame_buffer::{ColorDepth, FrameBuffer};
use rust_libretro::game::{core_run, snapshot_video, GState};
use rust_libretro::input::InputState;
use rust_libretro::render::{
    blit_sprite, fits_core, image_loader, render_video, to_pixel, write_pixel, AssetError, Assets,
    RenderError, IMAGE_BYTES, SPRITE_BYTES, SPRITE_HEIGHT, SPRITE_WIDTH,
};

fn image() -> Vec<u8> {
    (0..153_600usize).map(|i| (i % 251) as u8 + 1).collect()
}

/// A sprite of which every seventh pixel is left out, and which has pixels
/// with one byte zero.
fn sprite() -> Vec<u8> {
    let mut bytes = Vec::new();
    for pixel in 0..(96 * 19usize) {
        if pixel % 7 == 0 {
            bytes.push(0);
            bytes.push(0);
        } else if pixel % 7 == 1 {
            bytes.push(0);
            bytes.push((pixel % 200) as u8 + 1);
        } else if pixel % 7 == 2 {
            bytes.push((pixel % 200) as u8 + 1);
            bytes.push(0);
        } else {
            bytes.push((pixel % 255) as u8 + 1);
            bytes.push((pixel % 13) as u8);
        }
    }
    bytes
}

fn screen() -> FrameBuffer {
    FrameBuffer::new(320, 240, ColorDepth::Bits16).unwrap()
}

/// The drawing of a sprite written out once more, with arithmetic that wraps.
fn reference_blit(buf: &mut [u8], spr: &[u8], x: i32, y: i32) {
    let (mut x, mut y) = (x, y);
    let mut startx: u32 = 0;
    let mut starty: u32 = 0;
    if x < 0 {
        startx = x.wrapping_neg() as u32;
        x = 0;
    }
    if y < 0 {
        starty = y.wrapping_neg() as u32;
        y = 0;
    }
    let x = x as u32;
    let y = y as u32;
    let mut w = 96u32;
    let mut h = 19u32;
    if x > 320 || y > 240 {
        return;
    }
    if x + w >= 320 {
        w = 320 - x;
    }
    if y + h >= 240 {
        h = 240 - y;
    }
    for ix in startx..w {
        for iy in starty..h {
            let source = ix as usize + iy as usize * 96;
            if spr[2 * source] != 0 || spr[2 * source + 1] != 0 {
                let column = x.wrapping_sub(startx).wrapping_add(ix) as usize;
                let row = y.wrapping_sub(starty).wrapping_add(iy) as usize;
                let target = column + row * 320;
                buf[2 * target] = spr[2 * source];
                buf[2 * target + 1] = spr[2 * source + 1];
            }
        }
    }
}

#[test]
fn sizes_of_the_images() {
    assert_eq!(SPRITE_WIDTH, 96);
    assert_eq!(SPRITE_HEIGHT, 19);
    assert_eq!(SPRITE_BYTES, 96 * 19 * 2);
    assert_eq!(IMAGE_BYTES, 320 * 240 * 2);
}

#[test]
fn positions_round_towards_zero() {
    assert_eq!(to_pixel(0), 0);
    assert_eq!(to_pixel(255), 0);
    assert_eq!(to_pixel(256), 1);
    assert_eq!(to_pixel(81696), 319);
    assert_eq!(to_pixel(-1), 0);
    assert_eq!(to_pixel(-255), 0);
    assert_eq!(to_pixel(-256), -1);
    assert_eq!(to_pixel(-257), -1);
    assert_eq!(to_pixel(i32::MAX), i32::MAX / 256);
    assert_eq!(to_pixel(i32::MIN), i32::MIN / 256);
    assert_eq!(to_pixel(i32::MIN), -8_388_608);
}

#[test]
fn only_the_screen_of_the_core_fits() {
    assert!(fits_core(&screen()));
    assert!(!fits_core(&FrameBuffer::new(320, 240, ColorDepth::Bits32).unwrap()));
    assert!(!fits_core(&FrameBuffer::new(240, 320, ColorDepth::Bits16).unwrap()));
    assert!(!fits_core(&FrameBuffer::new(320, 241, ColorDepth::Bits16).unwrap()));
    assert!(!fits_core(&FrameBuffer::new(0, 0, ColorDepth::Bits16).unwrap()));
}

#[test]
fn image_covers_the_screen() {
    let mut frame = screen();
    image_loader(&mut frame, &image());
    assert_eq!(frame.as_bytes(), image().as_slice());
}

#[test]
fn pixel_is_made_white() {
    let mut frame = screen();
    write_pixel(&mut frame, 3, 2);
    let mut expected = vec![0u8; 153_600];
    expected[2 * (3 + 2 * 320)] = 0xff;
    expected[2 * (3 + 2 * 320) + 1] = 0xff;
    assert_eq!(frame.as_bytes(), expected.as_slice());
    write_pixel(&mut frame, 319, 239);
    expected[153_598] = 0xff;
    expected[153_599] = 0xff;
    assert_eq!(frame.as_bytes(), expected.as_slice());
}

#[test]
fn sprite_is_drawn_where_it_is_put() {
    let mut frame = screen();
    image_loader(&mut frame, &image());
    blit_sprite(&mut frame, &sprite(), 10, 20);
    let bytes = frame.as_bytes();
    let background = image();
    let spr = sprite();
    for row in 0..240usize {
        for column in 0..320usize {
            let at = 2 * (column + row * 320);
            let inside = (10..106).contains(&column) && (20..39).contains(&row);
            let source = if inside { (column - 10) + (row - 20) * 96 } else { 0 };
            if inside && source % 7 != 0 {
                assert_eq!(bytes[at], spr[2 * source]);
                assert_eq!(bytes[at + 1], spr[2 * source + 1]);
            } else {
                assert_eq!(bytes[at], background[at]);
                assert_eq!(bytes[at + 1], background[at + 1]);
            }
        }
    }
}

#[test]
fn sprite_is_cut_at_the_edges() {
    let places = [
        (0, 0),
        (-5, -3),
        (-95, -18),
        (-96, 0),
        (0, -19),
        (-96, -19),
        (-1, 239),
        (224, 221),
        (225, 222),
        (300, 230),
        (319, 239),
        (320, 0),
        (0, 240),
        (320, 240),
        (321, 10),
        (10, 241),
        (1000, 1000),
        (-1000, 5),
        (5, -1000),
        (i32::MIN, 0),
        (0, i32::MIN),
        (i32::MAX, i32::MAX),
        (i32::MIN, i32::MIN),
        (-48, 120),
        (272, 120),
    ];
    for (x, y) in places {
        let mut frame = screen();
        image_loader(&mut frame, &image());
        blit_sprite(&mut frame, &sprite(), x, y);
        let mut expected = image();
        reference_blit(&mut expected, &sprite(), x, y);
        assert!(frame.as_bytes() == expected.as_slice(), "sprite at {} {}", x, y);
    }
    let mut corner = screen();
    blit_sprite(&mut corner, &sprite(), 319, 239);
    let drawn: Vec<usize> = (0..153_600).filter(|at| corner.as_bytes()[*at] != 0).collect();
    assert!(drawn.is_empty());
    let mut corner = screen();
    blit_sprite(&mut corner, &sprite(), 318, 239);
    let drawn: Vec<usize> = (0..153_600).filter(|at| corner.as_bytes()[*at] != 0).collect();
    assert_eq!(drawn, vec![153_599]);
}

#[test]
fn images_must_have_their_sizes() {
    assert!(Assets::new(image(), sprite()).is_ok());
    assert_eq!(Assets::new(vec![0; 153_599], sprite()).err(), Some(AssetError::ImageSize));
    assert_eq!(Assets::new(vec![0; 153_601], vec![]).err(), Some(AssetError::ImageSize));
    assert_eq!(Assets::new(image(), vec![0; 3647]).err(), Some(AssetError::SpriteSize));
    assert_eq!(Assets::new(image(), vec![]).err(), Some(AssetError::SpriteSize));
    let assets = Assets::new(image(), sprite()).unwrap();
    assert_eq!(assets.image(), image().as_slice());
    assert_eq!(assets.sprite(), sprite().as_slice());
}

#[test]
fn frame_shows_the_snapshot() {
    let mut state = GState::new();
    let mut answers = [0i16; 16];
    for tick in 0..900 {
        answers[7] = (tick < 700) as i16;
        answers[5] = (tick % 3 != 0) as i16;
        answers[6] = (tick >= 700) as i16;
        answers[8] = (tick % 40 < 20) as i16;
        core_run(&mut state, &InputState::poll(&answers));
    }
    let snapshot = snapshot_video(&state);
    assert_eq!(snapshot.gobj_idx(), 23);
    let assets = Assets::new(image(), sprite()).unwrap();
    let mut frame = screen();
    assert_eq!(render_video(&snapshot, &mut frame, &assets), Ok(()));

    let mut expected = image();
    let player = 2 * ((snapshot.x() / 256) as usize + (snapshot.y() / 256) as usize * 320);
    expected[player] = 0xff;
    expected[player + 1] = 0xff;
    for slot in 0..snapshot.gobj_idx() as usize {
        let object = snapshot.object(slot);
        reference_blit(&mut expected, &sprite(), object.x() / 256, object.y() / 256);
    }
    assert!(frame.as_bytes() == expected.as_slice());
    assert!(expected != image());
}

#[test]
fn first_frame_shows_the_player_in_the_corner() {
    let snapshot = snapshot_video(&GState::new());
    let assets = Assets::new(image(), sprite()).unwrap();
    let mut frame = screen();
    assert_eq!(render_video(&snapshot, &mut frame, &assets), Ok(()));
    let mut expected = image();
    expected[0] = 0xff;
    expected[1] = 0xff;
    assert!(frame.as_bytes() == expected.as_slice());
}

#[test]
fn other_frames_are_refused_and_left_alone() {
    let snapshot = snapshot_video(&GState::new());
    let assets = Assets::new(image(), sprite()).unwrap();
    let mut deep = FrameBuffer::new(320, 240, ColorDepth::Bits32).unwrap();
    deep.set_byte(5, 9);
    assert_eq!(render_video(&snapshot, &mut deep, &assets), Err(RenderError::FrameMismatch));
    let mut expected = vec![0u8; 307_200];
    expected[5] = 9;
    assert!(deep.as_bytes() == expected.as_slice());
    let mut small = FrameBuffer::new(32, 24, ColorDepth::Bits16).unwrap();
    assert_eq!(render_video(&snapshot, &mut small, &assets), Err(RenderError::FrameMismatch));
    assert!(small.as_bytes().iter().all(|byte| *byte == 0));
}
