//! The root disk image: whether it is used as found or created, and how
//! large a new one is.
use vstd::prelude::*;

use crate::error::VermudaError;

verus! {

/// Bytes in one mebibyte.
pub const BYTES_PER_MIB: u64 = 1024 * 1024;

/// What the driver does to make the disk image exist.
#[derive(Debug, Clone, Copy, PartialEq, Eq, Structural)]
pub enum DiskAction {
    /// A file is already at the path: use it as it is.
    UseExisting,
    /// Create a sparse raw image of `len` bytes, by writing its last byte.
    CreateRaw { len: u64 },
}

/// A raw disk image at a path, of a size in mebibytes.
pub struct DiskImage {
    path: String,
    size: u64,
}

impl DiskImage {
    pub closed spec fn path_view(&self) -> Seq<char> {
        self.path@
    }

    pub closed spec fn size_view(&self) -> u64 {
        self.size
    }

    /// An image at `path` of `size` mebibytes.
    pub fn new(path: &str, size: u64) -> (r: Self)
        ensures
            r.path_view() == path@,
            r.size_view() == size,
    {
        DiskImage { path: path.to_owned(), size }
    }

    pub fn path(&self) -> (r: &str)
        ensures
            r@ == self.path_view(),
    {
        self.path.as_str()
    }

    /// The size in mebibytes.
    pub fn size_mb(&self) -> (r: u64)
        ensures
            r == self.size_view(),
    {
        self.size
    }

    /// Decides how the image comes to exist, given whether a file is already
    /// at its path. A new image must have a size of at least one mebibyte
    /// whose byte count fits in 64 bits.
    pub fn ensure_exists(&self, already_present: bool) -> (r: Result<DiskAction, VermudaError>)
        ensures
            already_present ==> r == Ok::<DiskAction, VermudaError>(DiskAction::UseExisting),
            !already_present && 0 < self.size_view() && self.size_view() * BYTES_PER_MIB
                <= u64::MAX ==> r == Ok::<DiskAction, VermudaError>(
                DiskAction::CreateRaw { len: (self.size_view() * BYTES_PER_MIB) as u64 },
            ),
            !already_present && (self.size_view() == 0 || self.size_view() * BYTES_PER_MIB
                > u64::MAX) ==> (r matches Err(e) && e is ValidationFailed),
    {
        if already_present {
            return Ok(DiskAction::UseExisting);
        }
        if self.size == 0 {
            return Err(VermudaError::validation_failed("disk image size must not be zero"));
        }
        match self.size.checked_mul(BYTES_PER_MIB) {
            Some(len) => Ok(DiskAction::CreateRaw { len }),
            None => Err(VermudaError::validation_failed("disk image size is too large")),
        }
    }
}

} // verus!
