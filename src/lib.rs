//! Render core for audio-reactive, multi-pass feedback shaders: ping-pong
//! image pairs, atomic accumulation buffers, pass planning, shader
//! hot-reload, GPU synthesis readback, spectrum ingestion, parameter
//! edits and frame export.
pub mod atomic;
pub mod bindings;
pub mod export;
pub mod feedback;
pub mod params;
pub mod pipeline;
pub mod program;
pub mod spectrum;
pub mod synthesis;
