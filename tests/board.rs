use kernel::addr::{MmioAddress, VirtualAddress};
use kernel::color::ColorCode;
use kernel::cpu::{detect_cpu_model, mmio_base, CpuModel};
use kernel::device_tree::DeviceTree;
use kernel::error::Error;
use kernel::fdt::FdtHeader;
use kernel::framebuffer::PixelFormat;
use kernel::gpio::{uart_pins_alt5, GpioRegisters, UART_PINS_MASK};
use kernel::uart::{
    mini_uart_can_receive, mini_uart_can_send, mmio_base_mini_uart, mmio_base_pl011_uart,
    pl011_can_receive, pl011_can_send, received_char, transmit_words,
};

#[test]
fn mmio_address_offsets() {
    let a = MmioAddress::new(0x3f00_0000, 0xb880);
    assert_eq!(a.get(), 0x3f00_b880);
    assert_eq!(a.offset(0x18).get(), 0x3f00_b898);
}

#[test]
fn virtual_address_offsets() {
    let a = VirtualAddress::new(0x8_0000);
    assert_eq!(a.offset(0x100).get(), 0x8_0100);
    assert_eq!(VirtualAddress::from(42u64).get(), 42);
}

#[test]
fn cortex_a53_is_supported() {
    // Main ID register of a Cortex-A53 r0p4.
    assert_eq!(detect_cpu_model(0x410f_d034), Ok(CpuModel::CortexA53));
    assert_eq!(mmio_base(CpuModel::CortexA53), Ok(0x3f00_0000));
}

#[test]
fn other_cores_are_unsupported() {
    assert_eq!(
        detect_cpu_model(0x410f_d083),
        Err(Error::UnsupportedCpuModel(CpuModel::CortexA72))
    );
    assert_eq!(
        detect_cpu_model(0x410f_c075),
        Err(Error::UnsupportedCpuModel(CpuModel::Unknown(0xc07)))
    );
    assert_eq!(
        mmio_base(CpuModel::CortexA72),
        Err(Error::UnsupportedCpuModel(CpuModel::CortexA72))
    );
}

#[test]
fn colors_pack_by_pixel_format() {
    let c = ColorCode::new(0x12, 0x34, 0x56);
    assert_eq!(c.to_u32(PixelFormat::Bgr), 0x0056_3412);
    assert_eq!(c.to_u32(PixelFormat::Rgb), 0x0012_3456);
    assert_eq!(ColorCode::from_u32(0xff56_3412, PixelFormat::Bgr), c);
    assert_eq!(ColorCode::from_u32(0xff12_3456, PixelFormat::Rgb), c);
    assert_eq!(ColorCode::default(), ColorCode::new(0, 0, 0));
}

#[test]
fn pixel_format_codes() {
    assert_eq!(PixelFormat::try_from(0u32), Ok(PixelFormat::Bgr));
    assert_eq!(PixelFormat::try_from(1u32), Ok(PixelFormat::Rgb));
    assert_eq!(PixelFormat::try_from(2u32), Err(Error::InvalidArgument));
    assert_eq!(PixelFormat::default(), PixelFormat::Bgr);
}

fn blob(total: u32, len: usize) -> Vec<u8> {
    let mut data = vec![0u8; len];
    data[0..4].copy_from_slice(&0xd00d_feedu32.to_be_bytes());
    data[4..8].copy_from_slice(&total.to_be_bytes());
    data[20..24].copy_from_slice(&17u32.to_be_bytes());
    data
}

#[test]
fn fdt_header_reads_big_endian() {
    let data = blob(0x48, 0x48);
    let header = FdtHeader::from_bytes(&data).unwrap();
    assert_eq!(header.magic(), 0xd00d_feed);
    assert_eq!(header.totalsize(), 0x48);
    assert!(header.is_valid());
    assert!(FdtHeader::from_bytes(&data[..39]).is_none());
}

#[test]
fn device_tree_is_cut_to_its_size() {
    let tree = DeviceTree::new(blob(0x40, 0x50)).ok().unwrap();
    assert_eq!(tree.fdt_header().totalsize(), 0x40);
    assert!(tree.fdt_header().is_valid());
}

#[test]
fn device_tree_errors() {
    let mut bad_magic = blob(0x40, 0x40);
    bad_magic[0] = 0;
    assert!(matches!(DeviceTree::new(bad_magic), Err(Error::InvalidDeviceTreeHeader)));
    assert!(matches!(DeviceTree::new(blob(0x20, 0x40)), Err(Error::InvalidDeviceTreeSize)));
    assert!(matches!(DeviceTree::new(blob(0x80, 0x40)), Err(Error::InvalidDeviceTreeSize)));
    assert!(matches!(DeviceTree::new(vec![0xd0, 0x0d]), Err(Error::InvalidDeviceTreeHeader)));
}

#[test]
fn gpio_registers_and_uart_pins() {
    let gpio = GpioRegisters::new(0x3f00_0000);
    assert_eq!(gpio.gpfsel1().get(), 0x3f20_0004);
    assert_eq!(gpio.gppud().get(), 0x3f20_0094);
    assert_eq!(gpio.gppudclk0().get(), 0x3f20_0098);
    assert_eq!(uart_pins_alt5(0), 0x1_2000);
    assert_eq!(uart_pins_alt5(0x7), 0x1_2007);
    assert_eq!(UART_PINS_MASK, 0xc000);
}

#[test]
fn uart_registers() {
    let mini = mmio_base_mini_uart(0x3f00_0000);
    assert_eq!(mini.io_port_base().get(), 0x3f21_5000);
    assert_eq!(mini.aux_enables().get(), 0x3f21_5004);
    assert_eq!(mini.aux_mu_io().get(), 0x3f21_5040);
    assert_eq!(mini.aux_mu_lsr().get(), 0x3f21_5054);
    assert_eq!(mini.aux_mu_baud().get(), 0x3f21_5068);
    let pl011 = mmio_base_pl011_uart(0x3f00_0000);
    assert_eq!(pl011.dr().get(), 0x3f20_1000);
    assert_eq!(pl011.fr().get(), 0x3f20_1018);
    assert_eq!(pl011.ibrd().get(), 0x3f20_1024);
    assert_eq!(pl011.cr().get(), 0x3f20_1030);
    assert_eq!(pl011.icr().get(), 0x3f20_1044);
}

#[test]
fn uart_status_bits() {
    assert!(mini_uart_can_send(0x20));
    assert!(!mini_uart_can_send(0x01));
    assert!(mini_uart_can_receive(0x01));
    assert!(!mini_uart_can_receive(0x20));
    assert!(pl011_can_send(0x10));
    assert!(!pl011_can_send(0x20));
    assert!(pl011_can_receive(0x20));
    assert!(!pl011_can_receive(0x10));
}

#[test]
fn uart_characters() {
    assert_eq!(received_char(0x141), 'A');
    assert_eq!(received_char(13), '\n');
    assert_eq!(transmit_words('\n'), vec![13, 10]);
    assert_eq!(transmit_words('x'), vec![0x78]);
}
