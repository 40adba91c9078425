//! Scaffolding of a small C++ project: the text of its `main.cpp` and
//! `Makefile`, the progress line of every step, and the order of the steps.
//!
//! The library decides and assembles; it touches neither the file system nor
//! the terminal. A caller performs each [`scaffolder::Action`] and hands the
//! [`scaffolder::Outcome`] back.

pub mod text;
pub mod template;
pub mod report;
pub mod scaffolder;
pub mod laws;
