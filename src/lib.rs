//! Host-side launcher for dense single-precision matrix multiplication on an accelerator:
//! it checks the operands, prepares the launch and wraps what the device wrote as the result.
//!
//! Matrices are row-major and their elements are carried as IEEE-754 binary32 bit patterns
//! (`u32`), which the launcher moves around without reading as numbers.

pub mod tensor;
pub mod matmul;
