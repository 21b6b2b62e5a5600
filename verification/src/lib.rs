//! A capability-typed bridge between device drivers and a host kernel's
//! file-operation convention.
//!
//! A driver implements one interface and declares, once, which optional
//! operations it wires up.  From that declaration the layer builds the
//! fixed-shape dispatch table the host expects, with a populated slot for
//! every declared operation and a null slot elsewhere.  Per-call trampolines
//! convert the host's raw arguments — offsets, buffer/length pairs, packed
//! command words — into bounded, validated values before any driver code
//! runs, and convert the driver's typed result back into the host's numeric
//! convention.

use vstd::prelude::*;

pub mod error;
pub mod file_operations;
pub mod miscdev;
pub mod printk;
pub mod rust_example;
pub mod user_ptr;

verus! {

use crate::error::KernelResult;

/// The top level entrypoint to implementing a kernel module.
pub trait KernelModule: Sized + Sync {
    /// Called at module initialization time, to perform whatever setup or
    /// registration the module should do.
    fn init() -> (r: KernelResult<Self>);
}

/// Stands for the module currently executing: the handle the host gives a
/// module to name itself in host calls.
pub struct ThisModule {
    _private: (),
}

impl ThisModule {
    /// Creates the handle for the module being initialized.
    pub fn new() -> (r: ThisModule) {
        ThisModule { _private: () }
    }

    /// Locks the module parameters to access them.
    ///
    /// Returns a guard that stands for the host-side parameter lock for as
    /// long as it lives; the lock itself is an external collaborator and is
    /// acquired and released by the host around this layer.
    pub fn kernel_param_lock(&self) -> (r: KParamGuard<'_>) {
        KParamGuard { this_module: self }
    }
}

/// Scoped hold on the kernel parameters of [`ThisModule`].
pub struct KParamGuard<'a> {
    this_module: &'a ThisModule,
}

impl<'a> KParamGuard<'a> {
    /// The module whose parameters this guard holds.
    pub fn module(&self) -> (r: &'a ThisModule) {
        self.this_module
    }
}

} // verus!
