//! Runtime core of a test-time function-mocking framework.
//!
//! Two loosely coupled parts make up the crate. [`mocking`] holds the mock
//! registry and its dispatch protocol: it answers, for one function identity
//! on the calling thread, whether a replacement is active and what verdict it
//! gives. [`mocking_utils`] holds the single-borrow cell, a flag-guarded
//! wrapper that grants at most one outstanding mutable path into its contents
//! at a time.

pub mod mocking;
pub mod mocking_utils;
