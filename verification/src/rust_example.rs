//! The example driver: the smallest device the interface allows.
//!
//! It declares no optional operation, so its dispatch table holds only the
//! always-present open and release slots, and opening it just allocates a
//! fresh per-open instance under exclusive ownership.

use std::boxed::Box;

use vstd::prelude::*;

use crate::error::KernelResult;
use crate::file_operations::{FileOperations, ToUse};

verus! {

/// A device with no optional operations.
pub struct RustFile {
    _private: (),
}

impl FileOperations for RustFile {
    type Wrapper = Box<RustFile>;

    fn to_use() -> (r: ToUse) {
        ToUse::none()
    }

    fn open() -> (r: KernelResult<Box<RustFile>>)
        ensures
            r is Ok,
    {
        Ok(Box::new(RustFile { _private: () }))
    }
}

} // verus!
