use vstd::prelude::*;

use crate::addr::MmioAddress;

verus! {

/// Offset of the GPIO registers from the MMIO base.
pub const GPIO_OFFSET: u32 = 0x20_0000;

/// Pins 14 and 15, the UART's transmit and receive lines, in a GPPUDCLK0 mask.
pub const UART_PINS_MASK: u32 = 1 << 14 | 1 << 15;

/// The GPIO registers this kernel uses.
pub struct GpioRegisters {
    base: MmioAddress,
}

impl GpioRegisters {
    #[verifier::type_invariant]
    spec fn fits(self) -> bool {
        self.base@ + 0x98 <= u32::MAX
    }

    /// Address of the first GPIO register.
    pub closed spec fn base(&self) -> u32 {
        self.base@
    }

    pub fn new(mmio_base: u32) -> (r: GpioRegisters)
        requires
            mmio_base + GPIO_OFFSET + 0x98 <= u32::MAX,
        ensures
            r.base() == mmio_base + GPIO_OFFSET,
    {
        GpioRegisters { base: MmioAddress::new(mmio_base, GPIO_OFFSET) }
    }

    /// Function select register for pins 10 to 19.
    pub fn gpfsel1(&self) -> (r: MmioAddress)
        ensures
            r@ == self.base() + 0x04,
    {
        proof {
            use_type_invariant(self);
        }
        self.base.offset(0x04)
    }

    /// Pull-up/down control register.
    pub fn gppud(&self) -> (r: MmioAddress)
        ensures
            r@ == self.base() + 0x94,
    {
        proof {
            use_type_invariant(self);
        }
        self.base.offset(0x94)
    }

    /// Pull-up/down clock register for pins 0 to 31.
    pub fn gppudclk0(&self) -> (r: MmioAddress)
        ensures
            r@ == self.base() + 0x98,
    {
        proof {
            use_type_invariant(self);
        }
        self.base.offset(0x98)
    }
}

/// The GPFSEL1 value `gpfsel1` with the alternate function 5 bit set in the
/// fields of pins 14 (bits 12 to 14) and 15 (bits 15 to 17); other bits are kept.
pub fn uart_pins_alt5(gpfsel1: u32) -> (r: u32)
    ensures
        r == gpfsel1 | 0x1_2000,
{
    let r = gpfsel1 | 0b010 << 12 | 0b010 << 15;
    assert(r == gpfsel1 | 0x1_2000) by (bit_vector)
        requires
            r == gpfsel1 | 0b010u32 << 12u32 | 0b010u32 << 15u32,
    ;
    r
}

} // verus!
