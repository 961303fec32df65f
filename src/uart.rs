use vstd::prelude::*;

use crate::addr::MmioAddress;

verus! {

/// Offset of the mini UART (auxiliary peripheral) registers from the MMIO base.
pub const MINI_UART_OFFSET: u32 = 0x21_5000;

/// Offset of the PL011 UART registers from the MMIO base.
pub const PL011_UART_OFFSET: u32 = 0x20_1000;

/// The mini UART's registers.
pub struct MiniUartIoRegister(MmioAddress);

impl MiniUartIoRegister {
    #[verifier::type_invariant]
    spec fn fits(self) -> bool {
        self.0@ + 0x68 <= u32::MAX
    }

    /// Address of the first register of the auxiliary peripheral.
    pub closed spec fn base(&self) -> u32 {
        self.0@
    }

    pub fn new(base: MmioAddress) -> (r: MiniUartIoRegister)
        requires
            base@ + 0x68 <= u32::MAX,
        ensures
            r.base() == base@,
    {
        MiniUartIoRegister(base)
    }

    pub fn io_port_base(&self) -> (r: MmioAddress)
        ensures
            r@ == self.base(),
    {
        self.0
    }

    fn at(&self, offset: usize) -> (r: MmioAddress)
        requires
            offset <= 0x68,
        ensures
            r@ == self.base() + offset,
    {
        proof {
            use_type_invariant(self);
        }
        self.0.offset(offset)
    }

    /// Auxiliary enables.
    pub fn aux_enables(&self) -> (r: MmioAddress)
        ensures
            r@ == self.base() + 0x04,
    {
        self.at(0x04)
    }

    /// Data register.
    pub fn aux_mu_io(&self) -> (r: MmioAddress)
        ensures
            r@ == self.base() + 0x40,
    {
        self.at(0x40)
    }

    /// Interrupt enable.
    pub fn aux_mu_ier(&self) -> (r: MmioAddress)
        ensures
            r@ == self.base() + 0x44,
    {
        self.at(0x44)
    }

    /// Interrupt identify.
    pub fn aux_mu_iir(&self) -> (r: MmioAddress)
        ensures
            r@ == self.base() + 0x48,
    {
        self.at(0x48)
    }

    /// Line control.
    pub fn aux_mu_lcr(&self) -> (r: MmioAddress)
        ensures
            r@ == self.base() + 0x4c,
    {
        self.at(0x4c)
    }

    /// Modem control.
    pub fn aux_mu_mcr(&self) -> (r: MmioAddress)
        ensures
            r@ == self.base() + 0x50,
    {
        self.at(0x50)
    }

    /// Line status.
    pub fn aux_mu_lsr(&self) -> (r: MmioAddress)
        ensures
            r@ == self.base() + 0x54,
    {
        self.at(0x54)
    }

    /// Extra control.
    pub fn aux_mu_cntl(&self) -> (r: MmioAddress)
        ensures
            r@ == self.base() + 0x60,
    {
        self.at(0x60)
    }

    /// Baud rate.
    pub fn aux_mu_baud(&self) -> (r: MmioAddress)
        ensures
            r@ == self.base() + 0x68,
    {
        self.at(0x68)
    }
}

/// The PL011 UART's registers.
pub struct Pl011UartIoRegister(MmioAddress);

impl Pl011UartIoRegister {
    #[verifier::type_invariant]
    spec fn fits(self) -> bool {
        self.0@ + 0x44 <= u32::MAX
    }

    /// Address of the first PL011 register.
    pub closed spec fn base(&self) -> u32 {
        self.0@
    }

    pub fn new(base: MmioAddress) -> (r: Pl011UartIoRegister)
        requires
            base@ + 0x44 <= u32::MAX,
        ensures
            r.base() == base@,
    {
        Pl011UartIoRegister(base)
    }

    pub fn io_port_base(&self) -> (r: MmioAddress)
        ensures
            r@ == self.base(),
    {
        self.0
    }

    fn at(&self, offset: usize) -> (r: MmioAddress)
        requires
            offset <= 0x44,
        ensures
            r@ == self.base() + offset,
    {
        proof {
            use_type_invariant(self);
        }
        self.0.offset(offset)
    }

    /// Data register.
    pub fn dr(&self) -> (r: MmioAddress)
        ensures
            r@ == self.base(),
    {
        self.0
    }

    /// Flag register.
    pub fn fr(&self) -> (r: MmioAddress)
        ensures
            r@ == self.base() + 0x18,
    {
        self.at(0x18)
    }

    /// Integer baud rate divisor.
    pub fn ibrd(&self) -> (r: MmioAddress)
        ensures
            r@ == self.base() + 0x24,
    {
        self.at(0x24)
    }

    /// Fractional baud rate divisor.
    pub fn fbrd(&self) -> (r: MmioAddress)
        ensures
            r@ == self.base() + 0x28,
    {
        self.at(0x28)
    }

    /// Line control.
    pub fn lcrh(&self) -> (r: MmioAddress)
        ensures
            r@ == self.base() + 0x2c,
    {
        self.at(0x2c)
    }

    /// Control register.
    pub fn cr(&self) -> (r: MmioAddress)
        ensures
            r@ == self.base() + 0x30,
    {
        self.at(0x30)
    }

    /// Interrupt clear.
    pub fn icr(&self) -> (r: MmioAddress)
        ensures
            r@ == self.base() + 0x44,
    {
        self.at(0x44)
    }
}

/// The mini UART's registers on the board whose MMIO window starts at `mmio_base`.
pub fn mmio_base_mini_uart(mmio_base: u32) -> (r: MiniUartIoRegister)
    requires
        mmio_base + MINI_UART_OFFSET + 0x68 <= u32::MAX,
    ensures
        r.base() == mmio_base + MINI_UART_OFFSET,
{
    MiniUartIoRegister::new(MmioAddress::new(mmio_base, MINI_UART_OFFSET))
}

/// The PL011 UART's registers on the board whose MMIO window starts at `mmio_base`.
pub fn mmio_base_pl011_uart(mmio_base: u32) -> (r: Pl011UartIoRegister)
    requires
        mmio_base + PL011_UART_OFFSET + 0x44 <= u32::MAX,
    ensures
        r.base() == mmio_base + PL011_UART_OFFSET,
{
    Pl011UartIoRegister::new(MmioAddress::new(mmio_base, PL011_UART_OFFSET))
}

/// Whether the mini UART's line status `lsr` shows room to transmit (bit 5).
pub fn mini_uart_can_send(lsr: u32) -> (r: bool)
    ensures
        r == (lsr & 0x20 != 0),
{
    lsr & 0x20 != 0
}

/// Whether the mini UART's line status `lsr` shows a received byte (bit 0).
pub fn mini_uart_can_receive(lsr: u32) -> (r: bool)
    ensures
        r == (lsr & 0x01 != 0),
{
    lsr & 0x01 != 0
}

/// Whether the PL011's flag register `fr` shows room to transmit: transmit FIFO not full (bit 5).
pub fn pl011_can_send(fr: u32) -> (r: bool)
    ensures
        r == (fr & 0x20 == 0),
{
    fr & 0x20 == 0
}

/// Whether the PL011's flag register `fr` shows a received byte: receive FIFO not empty (bit 4).
pub fn pl011_can_receive(fr: u32) -> (r: bool)
    ensures
        r == (fr & 0x10 == 0),
{
    fr & 0x10 == 0
}

/// The character a word read from a UART data register stands for: its low
/// byte, with a carriage return read as a newline.
pub open spec fn received_char_of(word: u32) -> char {
    if word % 0x100 == 13 {
        '\n'
    } else {
        (word % 0x100) as char
    }
}

pub fn received_char(word: u32) -> (c: char)
    ensures
        c == received_char_of(word),
{
    let byte = (word & 0xff) as u8;
    assert(word & 0xff == word % 0x100) by (bit_vector);
    if byte == 13 {
        '\n'
    } else {
        byte as char
    }
}

/// The words to write to a UART data register to send `c`: a newline goes
/// out as a carriage return then a newline.
pub fn transmit_words(c: char) -> (r: Vec<u32>)
    ensures
        c == '\n' ==> r@ == seq![13u32, 10u32],
        c != '\n' ==> r@ == seq![c as u32],
{
    let mut r: Vec<u32> = Vec::new();
    if c == '\n' {
        r.push(13);
    }
    r.push(c as u32);
    r
}

} // verus!
