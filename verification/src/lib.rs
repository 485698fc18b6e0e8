//! Support library for a radix-2 decimation-in-time Fourier transform.
//!
//! The transform recursion is driven by two pieces of integer logic that are
//! verified here: splitting a sample sequence into its even- and odd-index
//! subsequences, and checking that a sequence's length is a power of two
//! before any recursion starts. The floating-point butterfly arithmetic that
//! consumes these results lives with the caller.

pub mod extraccion;
pub mod validacion;
