//! Small verified building blocks: constant functions, string slicing,
//! structs with methods, enums with matching, and the rules of a
//! number-guessing game.

pub mod enums;
pub mod functions;
pub mod guessing;
pub mod ownership;
pub mod rectangles;
pub mod structs;
