use vstd::prelude::*;

use crate::error::Error;
use crate::fdt::{be_word, header_words, FdtHeader, FDT_HEADER_BYTES, FDT_MAGIC};

verus! {

/// Whether `bytes` start with a device tree header with the right magic number.
pub open spec fn has_fdt_header(bytes: Seq<u8>) -> bool {
    bytes.len() >= FDT_HEADER_BYTES && be_word(bytes, 0) == FDT_MAGIC
}

/// Whether the total size in the header at the start of `bytes` covers the
/// header and fits in `bytes`.
pub open spec fn fdt_size_fits(bytes: Seq<u8>) -> bool {
    FDT_HEADER_BYTES <= be_word(bytes, 4) <= bytes.len()
}

/// Whether `bytes` start with a device tree header that has the right magic
/// number and a total size that covers the header and fits in `bytes`.
pub open spec fn holds_device_tree(bytes: Seq<u8>) -> bool {
    has_fdt_header(bytes) && fdt_size_fits(bytes)
}

/// A flattened device tree blob whose header has been checked.
pub struct DeviceTree {
    data: Vec<u8>,
}

impl View for DeviceTree {
    type V = Seq<u8>;

    closed spec fn view(&self) -> Seq<u8> {
        self.data@
    }
}

impl DeviceTree {
    #[verifier::type_invariant]
    spec fn checked(self) -> bool {
        holds_device_tree(self.data@) && be_word(self.data@, 4) == self.data@.len()
    }

    /// The device tree at the start of `data`, cut to the total size its
    /// header gives. `InvalidDeviceTreeHeader` when the header is missing or
    /// has a bad magic number; `InvalidDeviceTreeSize` when it gives a size
    /// shorter than the header or longer than `data`.
    pub fn new(data: Vec<u8>) -> (r: Result<DeviceTree, Error>)
        ensures
            r is Ok <==> holds_device_tree(data@),
            r is Ok ==> r->Ok_0@ == data@.take(be_word(data@, 4) as int),
            !has_fdt_header(data@) ==> r == Err::<DeviceTree, Error>(Error::InvalidDeviceTreeHeader),
            has_fdt_header(data@) && !fdt_size_fits(data@) ==> r == Err::<DeviceTree, Error>(
                Error::InvalidDeviceTreeSize,
            ),
    {
        let header = match FdtHeader::from_bytes(data.as_slice()) {
            Some(h) => h,
            None => return Err(Error::InvalidDeviceTreeHeader),
        };
        if !header.is_valid() {
            return Err(Error::InvalidDeviceTreeHeader);
        }
        let total_size = header.totalsize() as usize;
        if total_size < FDT_HEADER_BYTES || total_size > data.len() {
            return Err(Error::InvalidDeviceTreeSize);
        }
        let ghost given = data@;
        let mut data = data;
        data.truncate(total_size);
        assert(forall|i: int| 0 <= i < FDT_HEADER_BYTES ==> data@[i] == given[i]);
        Ok(DeviceTree { data })
    }

    /// The blob's header.
    pub fn fdt_header(&self) -> (r: FdtHeader)
        ensures
            r@ == header_words(self@),
            r@[0] == FDT_MAGIC,
            r@[1] == self@.len(),
    {
        proof {
            use_type_invariant(self);
        }
        FdtHeader::parse(self.data.as_slice())
    }
}

} // verus!
