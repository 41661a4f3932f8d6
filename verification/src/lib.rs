//! A minimal window-management wrapper: plain value types for window
//! geometry, UTF-16 title decoding, title-bar style arithmetic, and the
//! construction of deferred-positioning requests.
//!
//! The library holds every decision and computation of the wrapper and is
//! verified. The platform calls themselves (metric, rectangle, title and
//! style queries, style writes, deferred positioning) are issued by the
//! surrounding program, which hands their raw answers to the functions here.

pub mod geometry;
pub mod utf16;
pub mod window;
