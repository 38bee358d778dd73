//! Configuration of the CSPDarknet-53 backbone of the YOLOX object detector.
//!
//! The backbone is described as a tree of layer settings: which convolutions,
//! bottlenecks and pooling stages it holds and how many channels each of them
//! reads and writes. Every setting is a plain number, so the whole description
//! can be built, inspected and reasoned about without a tensor backend.

pub mod model;
