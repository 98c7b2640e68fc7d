//! Configuration and control of the high and low frequency clock sources.
//!
//! The driver decides which register accesses the clock peripheral needs;
//! the environment performs them on the memory-mapped registers and hands
//! back what a read returned.
pub mod clocks;
pub mod handshake;
pub mod registers;
