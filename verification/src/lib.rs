//! Signal processing and display logic of an MSGEQ7 spectrum visualizer:
//! band normalization, the MSGEQ7 reader state machine, the millisecond
//! clock and the geometry of the bar graph.

pub mod normalize;
pub mod clock;
pub mod reader;
pub mod display;
pub mod color;
