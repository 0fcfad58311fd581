//! Toolpath sequencing core for a multi-axis motion effector with a
//! synchronized lighting fixture.
//!
//! Animation curves (polylines, Catmull-Rom splines, particle trails) carrying
//! a color gradient are turned into a time-ordered command stream: motion
//! actions with estimated durations, and lighting fades compressed to the
//! visually distinct stops of the gradient.  All geometry is held in integer
//! millimeters and all durations in whole milliseconds, so every computation
//! here is exact and verified.

pub mod color_utils;
pub mod delta_utils;
pub mod errors;
pub mod export_types;
pub mod geometry;
pub mod import_types;
pub mod naming;
pub mod numeric;
pub mod sequencer;
