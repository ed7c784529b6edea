//! A small code-generation front end.
//!
//! The crate builds, in memory, a low-level intermediate-representation
//! module: functions, basic blocks, instructions, and constant-string
//! globals, under the ordering rules a native backend imposes (a function
//! must be declared before blocks are appended to it; the builder cursor
//! must be positioned at a block before instructions are built; a block
//! ends with exactly one terminator). The module can be rendered to text
//! and run through a small reference interpreter.

pub mod ir;
pub mod builder;
pub mod interp;
pub mod text;
