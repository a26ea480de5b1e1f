//! Kernel modules and misc devices.

use vstd::prelude::*;
use crate::error::Error;

verus! {

/// A kernel module: built on load, told to clean up on unload.
pub trait Module: Sized {
    /// Called on module load. Returns the module instance or an error.
    fn init() -> Result<Self, Error>;

    /// Called on module unload, before the instance is dropped.
    fn exit(&self);
}

/// Minor number asking for a dynamically chosen minor.
pub const MISC_DYNAMIC_MINOR: i32 = 255;

/// Options for creating a misc device.
#[derive(Copy, Clone)]
pub struct MiscDeviceOptions {
    /// The device name (appears as `/dev/<name>`), NUL-terminated.
    pub name: &'static [u8],
}

/// What misc-device registration makes of `misc_register`'s return
/// value: negative is the error it carries, anything else is success.
pub fn misc_register_outcome(ret: i32) -> (r: Result<(), Error>)
    ensures
        ret < 0 ==> (r matches Err(e) && e@ == ret),
        ret >= 0 ==> r.is_ok(),
{
    if ret < 0 {
        Err(Error::from_errno(ret))
    } else {
        Ok(())
    }
}

} // verus!
