//! A bubble-level core for a board with an accelerometer and a 5x5 LED
//! matrix: tilt samples are quantized onto the matrix, a single cell is lit,
//! and two buttons switch the sensitivity bound between a narrow and a wide
//! setting. This crate holds the verified control pipeline; the board
//! peripherals (bus, display multiplexing, interrupt controller) live in the
//! surrounding application.

pub mod control;
pub mod frame;
pub mod quantizer;
pub mod sensitivity;

pub use frame::move_bubble;
pub use quantizer::quantize;
