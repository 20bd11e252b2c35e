//! Safe, verified core of a scanner-acquisition pipeline.
//!
//! The native scanning subsystem hands back raw data in two places: a
//! null-terminated array of device descriptors whose text fields may be
//! null, and a stream of sample bytes whose meaning depends on the
//! geometry and pixel format reported for the page. This crate owns the
//! logic that turns both into safe typed values: [`device`] materializes
//! the device directory, [`raster`] assembles one page's samples into a
//! typed image buffer. Everything that touches the native API itself
//! (pointers, handles, blocking reads) lives outside this crate and
//! hands in plain values.

pub mod device;
pub mod error;
pub mod raster;
