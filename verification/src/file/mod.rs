//! What is asked of the input file before it is uploaded.

pub mod validation;
