use vstd::prelude::*;

use crate::error::Error;

verus! {

/// The CPU cores this kernel can tell apart from the main ID register.
#[derive(Debug, Clone, Copy, PartialEq, Eq, Structural)]
pub enum CpuModel {
    /// Cortex-A53, found on the Raspberry Pi 3.
    CortexA53,
    /// Cortex-A72, found on the Raspberry Pi 4.
    CortexA72,
    /// Any other core, with its primary part number.
    Unknown(u32),
}

/// Physical base of the MMIO window on boards built around a Cortex-A53.
pub const CORTEX_A53_MMIO_BASE: u32 = 0x3f00_0000;

/// The primary part number field (bits 4 to 15) of a main ID register value.
pub open spec fn part_number(midr: u32) -> u32 {
    (midr >> 4u32) & 0xfffu32
}

/// The core that a primary part number names.
pub open spec fn model_of_part(part: u32) -> CpuModel {
    if part == 0xd03 {
        CpuModel::CortexA53
    } else if part == 0xd08 {
        CpuModel::CortexA72
    } else {
        CpuModel::Unknown(part)
    }
}

/// Identifies the core from the value of its main ID register. Only the
/// Cortex-A53 is supported; any other core is reported as unsupported.
pub fn detect_cpu_model(midr: u32) -> (r: Result<CpuModel, Error>)
    ensures
        model_of_part(part_number(midr)) == CpuModel::CortexA53 ==> r == Ok::<CpuModel, Error>(CpuModel::CortexA53),
        model_of_part(part_number(midr)) != CpuModel::CortexA53 ==> r == Err::<CpuModel, Error>(Error::UnsupportedCpuModel(model_of_part(part_number(midr)))),
{
    let part = (midr >> 4) & 0xfff;
    let model = if part == 0xd03 {
        CpuModel::CortexA53
    } else if part == 0xd08 {
        CpuModel::CortexA72
    } else {
        CpuModel::Unknown(part)
    };
    match model {
        CpuModel::CortexA53 => Ok(model),
        _ => Err(Error::UnsupportedCpuModel(model)),
    }
}

/// The physical base of the MMIO window of the board built around `model`.
pub fn mmio_base(model: CpuModel) -> (r: Result<u32, Error>)
    ensures
        model == CpuModel::CortexA53 ==> r == Ok::<u32, Error>(CORTEX_A53_MMIO_BASE),
        model != CpuModel::CortexA53 ==> r == Err::<u32, Error>(Error::UnsupportedCpuModel(model)),
{
    match model {
        CpuModel::CortexA53 => Ok(CORTEX_A53_MMIO_BASE),
        _ => Err(Error::UnsupportedCpuModel(model)),
    }
}

} // verus!
