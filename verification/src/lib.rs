//! Post-processing engine for sharded particle-simulation results.
//!
//! The crate verifies the structural core of the post-processor: shard path
//! resolution, shape validation of the main record file, the silent-skip
//! merge of ragged per-shard property data, integer particle-count
//! aggregation, histogram count bookkeeping, and the decision logic of the
//! population estimators. Numeric sample values are carried through the
//! engine as opaque 64-bit words; floating-point evaluation on them is left
//! to unverified callers.

pub mod api;
pub mod concat;
pub mod datamodel;
pub mod error;
pub mod grid;
pub mod main_file;
pub mod naming;
pub mod process;
pub mod properties;
pub mod sums;
pub mod tallies;
pub mod text;
