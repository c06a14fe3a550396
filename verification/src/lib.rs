//! Display platform adapter for an ST7789-class SPI panel.
//!
//! The library holds the parts of the firmware that can be stated and proved:
//! the command/data wire discipline of the display controller, the
//! mapping of dirty regions to address-window commands and raster byte
//! streams, the bring-up command sequence, the timing decisions of the
//! cooperative run loop, and the byte layout of recorded audio files.
//! Hardware access itself (SPI transfers, pins, clocks) is left to the
//! surrounding application, which transmits the wire operations this library
//! computes.

pub mod audio;
pub mod display;
pub mod geometry;
pub mod init;
pub mod protocol;
pub mod runloop;
pub mod wifi;
