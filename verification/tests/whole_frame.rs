use rust_libretro::frame_buffer::{ColorDepth, FrameBuffer};
use rust_libretro::game::GState;
use rust_libretro::input::InputState;
use rust_libretro::render::Assets;
use rust_libretro::{
    core_run, get_serialize_size, render_video, serialize_core_state, snapshot_video,
    unserialize_core_state,
};

#[test]
fn tick_snapshot_and_frame_in_a_row() {
    let mut state = GState::new();
    let mut answers = [0i16; 16];
    answers[5] = 1;
    answers[7] = 1;
    for _ in 0..16 {
        core_run(&mut state, &InputState::poll(&answers));
    }
    let snapshot = snapshot_video(&state);
    assert_eq!((snapshot.x(), snapshot.y()), (768, 768));

    let assets = Assets::new(vec![1; 153_600], vec![0; 3648]).unwrap();
    let mut frame = FrameBuffer::new(320, 240, ColorDepth::Bits16).unwrap();
    assert_eq!(render_video(&snapshot, &mut frame, &assets), Ok(()));
    let player = 2 * (3 + 3 * 320);
    for (at, byte) in frame.as_bytes().iter().enumerate() {
        let expected = if at == player || at == player + 1 { 0xff } else { 1 };
        assert_eq!(*byte, expected, "byte {}", at);
    }
}

#[test]
fn saved_state_is_empty() {
    serialize_core_state();
    unserialize_core_state();
    assert_eq!(get_serialize_size(), 0);
}
