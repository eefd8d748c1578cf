//! Suspend/resume generators, lazy combinators over them, and a pull-based
//! adapter that remembers exhaustion.
pub mod filter;
pub mod func;
pub mod generator;
pub mod generatorext;
pub mod iter;
pub mod map;
pub mod mapped;
pub mod take;
pub mod takewhile;

pub use generator::{Generator, GeneratorState, VecGen};
pub use generatorext::{GeneratorExt, PinGeneratorExt};
