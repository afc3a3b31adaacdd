//! Two small verified components: a divisibility classifier over `u32`,
//! and a typestate-checked entity whose authorization lifecycle is encoded
//! in the type system, so that out-of-state operations do not compile.

pub mod fizzbuzz;
pub mod user;
