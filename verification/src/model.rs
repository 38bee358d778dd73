//! The layer settings, from the single convolution up to the whole backbone.

pub mod blocks;
pub mod bottleneck;
pub mod darknet;
