//! Miscellaneous-device registration.
//!
//! Turning a dispatch table into a visible device node is the host's work:
//! the registration entry point is an external collaborator that answers
//! with success or a negative code.  This module keeps the record straight
//! around that answer — what table and name were submitted, which minor was
//! chosen, and that one registration object never registers twice.

use std::boxed::Box;

use vstd::prelude::*;

use crate::error::{Error, KernelResult, MIN_ERRNO};
use crate::file_operations::{FileOperations, FileOperationsVtable, vtable_spec};

verus! {

/// The minor number that asks the host to allocate one dynamically.
pub const MISC_DYNAMIC_MINOR: i32 = 255;

/// The record a registration submits to the host: the dispatch table for
/// the device's kind, the device's name, and the requested minor number.
pub struct MiscDevice {
    /// The dispatch table the host will call through.
    pub fops: FileOperationsVtable,
    /// The device node's name.
    pub name: Vec<u8>,
    /// The minor number, or [`MISC_DYNAMIC_MINOR`] to let the host pick.
    pub minor: i32,
}

/// A registration of a miscellaneous device.
///
/// Starts unregistered; [`Registration::register`] fills it exactly once.
/// The host keeps a pointer into the record, so a live registration must
/// stay at a stable address — [`Registration::new_pinned`] hands it out
/// heap-allocated for that reason, and it is never moved out again.
pub struct Registration {
    mdev: Option<MiscDevice>,
}

impl Registration {
    /// The device record this registration holds, if it has registered.
    pub closed spec fn device_spec(self) -> Option<MiscDevice> {
        self.mdev
    }

    /// Creates a new registration, not yet registered.  It is still allowed
    /// to move.
    pub fn new() -> (r: Registration)
        ensures
            r.device_spec() is None,
    {
        Registration { mdev: None }
    }

    /// Whether this object has completed a registration.
    pub fn is_registered(&self) -> (r: bool)
        ensures
            r == (self.device_spec() is Some),
    {
        self.mdev.is_some()
    }

    /// The record submitted to the host, while registered.
    pub fn device(&self) -> (r: Option<&MiscDevice>)
        ensures
            match r {
                Some(d) => self.device_spec() matches Some(dev) && *d == dev,
                None => self.device_spec() is None,
            },
    {
        self.mdev.as_ref()
    }

    /// Registers a miscellaneous device with the host.
    ///
    /// Builds the dispatch table for `T`, fills the record with it, the
    /// given name and the given minor (or a request for a dynamic one), and
    /// applies the host's answer `host_status` — 0 for success, a negative
    /// code for a registration failure, in which case the record is cleared
    /// again.  Re-registering an already-registered object fails with an
    /// invalid-argument error before anything is submitted.
    pub fn register<T: FileOperations>(
        &mut self,
        name: Vec<u8>,
        minor: Option<i32>,
        host_status: i32,
    ) -> (r: KernelResult<()>)
        requires
            MIN_ERRNO <= host_status <= 0,
        ensures
            old(self).device_spec() is Some ==> {
                &&& r matches Err(e) && e == Error::EINVAL
                &&& final(self).device_spec() == old(self).device_spec()
            },
            old(self).device_spec() is None && host_status < 0 ==> {
                &&& r matches Err(e) && e.errno_spec() == host_status && e.wf()
                &&& final(self).device_spec() is None
            },
            old(self).device_spec() is None && host_status == 0 ==> {
                &&& r is Ok
                &&& final(self).device_spec() matches Some(d) && {
                    &&& d.fops == vtable_spec(T::to_use_spec())
                    &&& d.name@ == name@
                    &&& d.minor == (match minor {
                        Some(m) => m,
                        None => MISC_DYNAMIC_MINOR,
                    })
                }
            },
    {
        if self.mdev.is_some() {
            return Err(Error::EINVAL);
        }
        let chosen = match minor {
            Some(m) => m,
            None => MISC_DYNAMIC_MINOR,
        };
        let dev = MiscDevice { fops: FileOperationsVtable::build::<T>(), name, minor: chosen };
        if host_status < 0 {
            return Err(Error::from_kernel_errno(host_status));
        }
        self.mdev = Some(dev);
        Ok(())
    }

    /// Clears the record, as the end of the registration's scope does.  The
    /// host deregisters automatically when the registration object's scope
    /// ends; that call is the host's own, and this is the record transition
    /// it leaves behind.  Returns the record that was submitted, for the
    /// host's deregistration to act on; an unregistered object yields
    /// nothing.
    pub fn deregister(&mut self) -> (r: Option<MiscDevice>)
        ensures
            final(self).device_spec() is None,
            r == old(self).device_spec(),
    {
        self.mdev.take()
    }

    /// Creates a registration, registers it, and returns it heap-allocated,
    /// so the record the host now points into keeps a stable address for the
    /// registration's lifetime.
    pub fn new_pinned<T: FileOperations>(
        name: Vec<u8>,
        minor: Option<i32>,
        host_status: i32,
    ) -> (r: KernelResult<Box<Registration>>)
        requires
            MIN_ERRNO <= host_status <= 0,
        ensures
            host_status == 0 ==> (r matches Ok(b) && (b.device_spec() matches Some(d) && {
                &&& d.fops == vtable_spec(T::to_use_spec())
                &&& d.name@ == name@
                &&& d.minor == (match minor {
                    Some(m) => m,
                    None => MISC_DYNAMIC_MINOR,
                })
            })),
            host_status < 0 ==> (r matches Err(e) && e.errno_spec() == host_status && e.wf()),
    {
        let mut reg = Registration::new();
        match reg.register::<T>(name, minor, host_status) {
            Ok(_) => Ok(Box::new(reg)),
            Err(e) => Err(e),
        }
    }
}

impl Default for Registration {
    /// An unregistered registration.
    fn default() -> (r: Registration)
        ensures
            r.device_spec() is None,
    {
        Registration::new()
    }
}

} // verus!
