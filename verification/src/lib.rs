//! Small verified library of language-fundamental examples: integer
//! temperature conversion, Fibonacci terms, string helpers, and a few
//! demonstration types.

pub mod fibonacci;
pub mod functions;
pub mod ownership;
pub mod rectangle;
pub mod references;
pub mod slices;
pub mod structs;
pub mod temperature;
