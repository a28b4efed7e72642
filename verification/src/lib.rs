//! Two small demonstrations of value semantics, each in its own module:
//! growable text buffers and boxed integers that are moved, duplicated and
//! borrowed, and a rectangle record with free functions and attached methods.

pub mod ownership;
pub mod rectangles;
