//! Acquisition and decoding of image-classification benchmark datasets.
//!
//! The crate holds the decisions of the acquisition pipeline and the decoder
//! of fixed-width binary records. It performs no input or output itself: a
//! driver looks at the file system and the network and reports what it found,
//! and each function here answers with what has to happen next.

pub mod sets;
pub mod utils;
