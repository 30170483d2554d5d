//! A deterministic Xorshift128+ pseudo-random number generator whose seed
//! expansion uses a Murmur3-style finalizer, reproducing a reference
//! algorithm's output bit for bit, including the legacy bias semantics of its
//! bounded draws.

pub mod hash;
pub mod rng;

pub use rng::Random;
pub use rng::RandomXS128;
pub use rng::RngError;
pub use rng::SeedInitializer;
pub use hash::INV_MH3_FACTOR_1;
pub use hash::INV_MH3_FACTOR_2;
pub use hash::MH3_FACTOR_1;
pub use hash::MH3_FACTOR_2;
