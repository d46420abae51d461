//! Device identity.
//!
//! A medium is addressed by a platform-native path, carried as raw bytes: a
//! device node or an image file, with no requirement that the bytes form
//! valid UTF-8.  The handle is immutable once constructed; the driver uses
//! it to build subprocess argument vectors.

use vstd::prelude::*;

verus! {

/// An opaque reference to a physical or file-backed medium.
#[derive(Debug, PartialEq, Eq)]
pub struct DeviceHandle {
    path: Vec<u8>,
}

impl View for DeviceHandle {
    type V = Seq<u8>;

    closed spec fn view(&self) -> Seq<u8> {
        self.path@
    }
}

impl DeviceHandle {
    /// Wrap a device path.
    pub fn new(path: Vec<u8>) -> (r: DeviceHandle)
        ensures
            r@ == path@,
    {
        DeviceHandle { path }
    }

    /// The raw path, exactly as it was supplied.
    pub fn device_path(&self) -> (r: &Vec<u8>)
        ensures
            r@ == self@,
    {
        &self.path
    }
}

} // verus!
