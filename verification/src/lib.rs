//! A libretro core whose simulation runs at a fixed logic rate that is an
//! integer multiple of the displayed frame rate, with rendering performed
//! from published snapshots of the simulation state.

pub mod av_info;
pub mod config;
pub mod environment;
pub mod frame_buffer;
pub mod game;
pub mod input;
pub mod lifecycle;
pub mod negotiator;
pub mod panic_writer;
pub mod rate_table;
pub mod render;
pub mod retro_string;
pub mod scheduler;
pub mod system_info;
pub mod worker;

pub use crate::game::{
    core_run, get_serialize_size, serialize_core_state, snapshot_video, unserialize_core_state,
};
pub use crate::render::render_video;
