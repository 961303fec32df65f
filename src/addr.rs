use vstd::prelude::*;

verus! {

/// An absolute physical address inside the memory-mapped I/O window.
///
/// Loads and stores through such an address are observable side effects; they
/// are performed outside this library, which only computes the addresses.
#[derive(Debug, Clone, Copy, PartialEq, Eq, Structural)]
pub struct MmioAddress(u32);

impl View for MmioAddress {
    type V = u32;

    closed spec fn view(&self) -> u32 {
        self.0
    }
}

impl MmioAddress {
    /// The address `offset` bytes past the board's resolved MMIO base.
    pub fn new(base: u32, offset: u32) -> (r: MmioAddress)
        requires
            base + offset <= u32::MAX,
        ensures
            r@ == base + offset,
    {
        MmioAddress(base + offset)
    }

    /// The address as a raw 32-bit value.
    pub fn get(self) -> (r: u32)
        ensures
            r == self@,
    {
        self.0
    }

    /// The address advanced by `offset` bytes.
    pub fn offset(self, offset: usize) -> (r: MmioAddress)
        requires
            self@ + offset <= u32::MAX,
        ensures
            r@ == self@ + offset,
    {
        MmioAddress(self.0 + offset as u32)
    }
}

/// A 64-bit virtual address, as handed over by the boot loader or the firmware.
#[derive(Debug, Clone, Copy, PartialEq, Eq, Structural)]
pub struct VirtualAddress(u64);

impl View for VirtualAddress {
    type V = u64;

    closed spec fn view(&self) -> u64 {
        self.0
    }
}

impl VirtualAddress {
    pub fn new(addr: u64) -> (r: VirtualAddress)
        ensures
            r@ == addr,
    {
        VirtualAddress(addr)
    }

    pub fn get(self) -> (r: u64)
        ensures
            r == self@,
    {
        self.0
    }

    /// The address advanced by `offset` bytes.
    pub fn offset(self, offset: usize) -> (r: VirtualAddress)
        requires
            self@ + offset <= u64::MAX,
        ensures
            r@ == self@ + offset,
    {
        VirtualAddress(self.0 + offset as u64)
    }
}

impl From<u64> for VirtualAddress {
    fn from(addr: u64) -> (r: VirtualAddress) {
        VirtualAddress::new(addr)
    }
}

impl vstd::std_specs::convert::FromSpecImpl<u64> for VirtualAddress {
    open spec fn obeys_from_spec() -> bool {
        true
    }

    open spec fn from_spec(addr: u64) -> VirtualAddress {
        choose|v: VirtualAddress| v@ == addr
    }
}

} // verus!
