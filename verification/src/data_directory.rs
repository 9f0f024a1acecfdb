//! A data-directory slot: an RVA and a size locating one table of the image.
use vstd::prelude::*;

verus! {

/// One slot of the optional header's directory table.  A directory is
/// present exactly when its size is non-zero.
#[derive(Clone, Copy, Debug, PartialEq, Eq, Structural)]
pub struct DataDirectory {
    pub virtual_address: u32,
    pub size: u32,
}

impl DataDirectory {
    /// Builds a slot from its two raw fields.
    pub fn new(virtual_address: u32, size: u32) -> (r: DataDirectory)
        ensures
            r == (DataDirectory { virtual_address, size }),
    {
        DataDirectory { virtual_address, size }
    }

    /// The size of the located table in bytes.
    pub fn size(&self) -> (r: u32)
        ensures
            r == self.size,
    {
        self.size
    }

    /// The RVA of the located table.
    pub fn virtual_address(&self) -> (r: u32)
        ensures
            r == self.virtual_address,
    {
        self.virtual_address
    }
}

} // verus!
