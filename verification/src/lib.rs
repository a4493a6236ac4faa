//! The part of a C runtime that stands below every safe abstraction: turning a
//! freshly loaded process image into a running program, and replacing a running
//! image with a new one.
//!
//! Everything here works on plain values. The caller reads the raw stack, the
//! descriptors and the files, and hands over what it read; the functions decide
//! what is to be done next and say so in their contracts.

pub mod access;
pub mod auxv;
pub mod c_str;
pub mod error;
pub mod exec;
pub mod exec_laws;
pub mod filetable;
pub mod libgen;
pub mod script;
pub mod start;
