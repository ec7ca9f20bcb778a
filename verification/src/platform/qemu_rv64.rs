//! The emulated RISC-V machine.

use crate::platform::{
    place, region_at, regions_disjoint, report_default_panic, panic_text, BootStep, DevResult,
    DevError, PowerAction, SmpStep,
};
use vstd::prelude::*;

verus! {

pub const ROOT_DISK_BASE_BLOCK: usize = 0;

pub const ALLOW_MISSING_ROOT: bool = false;

pub const HARDWARE_CLOCK_FREQ: usize = 10_000_000;

pub const USER_CLOCK_FREQ: usize = HARDWARE_CLOCK_FREQ;

pub const ACCOUNTING_CLOCK_FREQ: usize = HARDWARE_CLOCK_FREQ;

pub const MEMORY_START: u64 = 0x8020_0000;

pub const MEMORY_END: u64 = 0x9000_0000;

pub const MAX_PHYSICAL_MEMORY_END: u64 = 0x4_8000_0000;

pub const RAM_BASE: u64 = 0x8000_0000;

/// Where the serial line is.
pub const UART_BASE: usize = 0x1000_0000;

/// The serial line's register that tells whether it can take a byte.
pub const UART_STATUS: usize = 5;

/// The serial line can take a byte.
pub const LSR_TX_EMPTY: u8 = 0x20;

/// The regions of the devices: address and size.
pub open spec fn mmio_regions() -> Seq<(usize, usize)> {
    seq![
        (0x0010_1000usize, 0x00_1000usize),
        (0x1000_0000usize, 0x00_1000usize),
        (0x1000_1000usize, 0x00_8000usize),
    ]
}

/// The regions of the block devices.
pub open spec fn block_regions() -> Seq<(usize, usize)> {
    seq![(0x1000_1000usize, 0x00_1000usize), (0x1000_2000usize, 0x00_1000usize)]
}

/// The regions of the devices: address and size.
pub fn mmio() -> (r: Vec<(usize, usize)>)
    ensures
        r@ == mmio_regions(),
{
    let r = vec![(0x0010_1000, 0x00_1000), (0x1000_0000, 0x00_1000), (0x1000_1000, 0x00_8000)];
    proof {
        assert(r@ =~= mmio_regions());
    }
    r
}

/// The regions of the devices do not overlap, and each block device lies in one
/// of them.
pub proof fn regions_are_disjoint()
    ensures
        regions_disjoint(mmio_regions()),
        regions_disjoint(block_regions()),
        forall|i: int|
            0 <= i < block_regions().len() ==> mmio_regions()[2].0 <= (
            #[trigger] block_regions()[i]).0 && block_regions()[i].0 + block_regions()[i].1
                <= mmio_regions()[2].0 + mmio_regions()[2].1,
{
}

/// The byte to write to the serial line, once its status says that it can take
/// one; nothing as long as it cannot.
pub fn direct_console_putchar(status: u8, c: u8) -> (r: Option<u8>)
    ensures
        r == (if status & LSR_TX_EMPTY != 0 {
            Some(c)
        } else {
            None
        }),
{
    if status & LSR_TX_EMPTY != 0 {
        Some(c)
    } else {
        None
    }
}

/// Where the end of memory is looked up: the device tree that was handed over.
pub fn early_init(_hart_id: usize, fdt_pa: usize) -> (r: usize)
    ensures
        r == fdt_pa,
{
    fdt_pa
}

/// What is set up, in this order.
pub fn init_kernel() -> (r: Vec<BootStep>)
    ensures
        r@ == seq![
            BootStep::Trap,
            BootStep::Memory,
            BootStep::DirectUart,
            BootStep::Banner,
            BootStep::Realtime,
            BootStep::Network,
        ],
{
    vec![
        BootStep::Trap,
        BootStep::Memory,
        BootStep::DirectUart,
        BootStep::Banner,
        BootStep::Realtime,
        BootStep::Network,
    ]
}

/// What starts the other processors.
pub fn start_secondary_cpus() -> (r: Vec<SmpStep>)
    ensures
        r@ == seq![SmpStep::PublishBootReady, SmpStep::StartSecondary],
{
    vec![SmpStep::PublishBootReady, SmpStep::StartSecondary]
}

/// The other processors go on by themselves.
pub fn release_secondary_cpus() -> (r: Vec<SmpStep>)
    ensures
        r@ == Seq::<SmpStep>::empty(),
{
    Vec::new()
}

/// The region of a block device, as the kernel's address space shows it, with
/// its size.
pub fn new_block_device(index: usize, kernel_base: usize) -> (r: DevResult<(usize, usize)>)
    requires
        kernel_base + 0x1000_2000 <= usize::MAX,
    ensures
        r == (match region_at(block_regions(), index) {
            Ok((base, size)) => Ok((((base + kernel_base) as usize), size)),
            Err(e) => Err(e),
        }),
{
    if index == 0 {
        Ok((0x1000_1000 + kernel_base, 0x00_1000))
    } else if index == 1 {
        Ok((0x1000_2000 + kernel_base, 0x00_1000))
    } else {
        Err(DevError::InvalidParam)
    }
}

/// The report of a panic.
pub fn report_panic(location: Option<(&str, u32)>, message: &str) -> (r: String)
    ensures
        r@ == panic_text(place(location), message@),
{
    report_default_panic(location, message)
}

/// The machine is switched off.
pub fn shutdown(failure: bool) -> (r: PowerAction)
    ensures
        r == (PowerAction::Shutdown { failure }),
{
    PowerAction::Shutdown { failure }
}

/// The machine is switched off without a failure.
pub fn poweroff() -> (r: PowerAction)
    ensures
        r == (PowerAction::Shutdown { failure: false }),
{
    shutdown(false)
}

} // verus!
