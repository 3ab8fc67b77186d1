//! A verified model of a wavefront-aligner configuration facade.
//!
//! The library models the configuration space of a WFA2-style pairwise
//! alignment engine: distance metrics, penalty schemes, memory modes,
//! heuristic pruning strategies, alignment scope and span, step limits,
//! and the decoding of native status codes and CIGAR result buffers into
//! well-defined public result types.

pub mod affine_wavefront;
pub mod cigar;
pub mod laws;
