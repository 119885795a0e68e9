//! Small verified library of self-contained examples: a labeled pair
//! container with a capability trait and a derived difference computation
//! (in two encodings), decimal formatting of integers and integer lists,
//! simple generic traits, an animal trait with a stateful implementor, a
//! Fibonacci stream, option chaining, parity conversion, value matching,
//! and contracts for closures passed as values.

pub mod explicit_generics;
pub mod associated_types;
pub mod equivalence;
pub mod formatting;
pub mod generics;
pub mod animals;
pub mod fibonacci;
pub mod phone;
pub mod parity;
pub mod matching;
pub mod closures;
pub mod layered;
