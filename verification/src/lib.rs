//! Seven-segment displays driven from general-purpose output lines: the
//! font, the wiring of one display, and a row of displays showing a number.

pub mod decimal;
pub mod digit;
pub mod font;
pub mod level;
pub mod segment_display;
pub mod segment_displays;

pub use digit::Digit;
pub use font::Segment;
pub use segment_display::{DisplayView, SegmentDisplay};
pub use segment_displays::SegmentDisplays;
