//! Verified walk through ownership, borrowing and slices, built around one
//! reusable primitive: a scanner that finds the first space-delimited token
//! in a buffer and returns a borrowed view of it.
//!
//! The `scan` module holds the scanner and the laws proved about it; the
//! other modules are small verified examples of moving, borrowing and
//! slicing owned text.

pub mod borrowing;
pub mod ownership;
pub mod scan;
pub mod slices;
