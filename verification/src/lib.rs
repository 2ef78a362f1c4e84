//! Wire-exact frames for chains of APA102 / SK9822 addressable LEDs.
//!
//! A chain is driven over a clock and a data line. What the chain sees is one
//! contiguous run of bytes: a start marker, one four-byte cell per LED, a reset
//! marker and a few trailing bytes whose clock edges push the last cells
//! through the chain. This crate builds that run of bytes and proves its
//! layout.

mod bytes;
pub mod config;
pub mod driver;
pub mod frame;
pub mod layout;
pub mod pixel;

pub use crate::pixel::Pixel;
pub use crate::pixel::LED_STRIP_SPI_FRAME_SK9822_LED_MSB3;
pub use crate::frame::Data;
pub use crate::frame::HeapData;
pub use crate::config::Config;
pub use crate::config::DEFAULT_SPI_HOST;
pub use crate::driver::Apa;
