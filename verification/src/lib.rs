//! Building blocks of a randomized SQL statement fuzzer: a seeded
//! pseudo-random stream, schema-aware statement generators, a weighted
//! statement-kind selector, per-worker bookkeeping and run statistics.
//! Every function carries a machine-checked contract.

pub mod drivers;
pub mod engines;
pub mod generators;
pub mod profile;
pub mod rng;
pub mod server;
pub mod stats;
pub mod text;
