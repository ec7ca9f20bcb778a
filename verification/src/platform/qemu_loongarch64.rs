//! The emulated LoongArch machine.

use crate::platform::{
    panic_text, pieces, place, regions_disjoint, report_default_panic, BootStep, Piece,
    PowerAction, SmpStep,
};
use vstd::prelude::*;

verus! {

pub const ROOT_DISK_BASE_BLOCK: usize = 0;

pub const ALLOW_MISSING_ROOT: bool = false;

pub const FIRMWARE_PAGING_ACTIVE: bool = false;

pub const PRESERVE_UNCACHED_DMW0: bool = false;

pub const UNCACHED_MMIO: bool = false;

pub const HAS_VIRTIO_PCI: bool = true;

pub const MEMORY_START: u64 = 0;

pub const LOW_MEMORY_END: u64 = 0x1000_0000;

pub const HIGH_MEMORY_START: u64 = 0x8000_0000;

pub const MEMORY_END: u64 = 0x3_7000_0000;

pub const MAX_PHYSICAL_MEMORY_END: u64 = 0x9_7000_0000;

pub const UART_BASE: usize = 0x1fe0_01e0;

/// The data register of the firmware's configuration.
pub const FW_CFG_DATA: usize = 0x1e02_0000;

/// The register that selects what is read from it.
pub const FW_CFG_SELECTOR: usize = 0x1e02_0008;

/// The selector of the size of memory.
pub const FW_CFG_RAM_SIZE: u16 = 3;

/// The regions of the devices: address and size.
pub open spec fn mmio_regions() -> Seq<(usize, usize)> {
    seq![
        (0x1000_1000usize, 0x00_1000usize),
        (0x100d_0000usize, 0x00_1000usize),
        (0x100e_0000usize, 0x00_1000usize),
        (0x1fe0_0000usize, 0x00_1000usize),
        (0x0010_0000usize, 0x00_2000usize),
        (0x2000_0000usize, 0x1000_0000usize),
        (0x4000_0000usize, 0x1000_0000usize),
    ]
}

/// The regions of the devices: address and size.
pub fn mmio() -> (r: Vec<(usize, usize)>)
    ensures
        r@ == mmio_regions(),
{
    let r = vec![
        (0x1000_1000, 0x00_1000),
        (0x100d_0000, 0x00_1000),
        (0x100e_0000, 0x00_1000),
        (0x1fe0_0000, 0x00_1000),
        (0x0010_0000, 0x00_2000),
        (0x2000_0000, 0x1000_0000),
        (0x4000_0000, 0x1000_0000),
    ];
    proof {
        assert(r@ =~= mmio_regions());
    }
    r
}

/// The regions of the devices do not overlap.
pub proof fn regions_are_disjoint()
    ensures
        regions_disjoint(mmio_regions()),
{
}

/// Where the end of memory is looked up: with the arguments that were handed
/// over.
pub fn early_init(argc: usize, argv: usize) -> (r: (usize, usize))
    ensures
        r == (argc, argv),
{
    (argc, argv)
}

/// The end of memory, out of its size: what does not fit into the low part lies
/// in the high part, which holds the kernel's heap at least and ends where the
/// machine's memory ends at most.
pub open spec fn memory_end(ram_size: u64, kernel_heap: u64) -> Option<u64> {
    let end = HIGH_MEMORY_START + (ram_size - LOW_MEMORY_END);
    let least = HIGH_MEMORY_START + kernel_heap;
    if ram_size < LOW_MEMORY_END || end > u64::MAX {
        None
    } else if end < least {
        Some(least as u64)
    } else if end > MAX_PHYSICAL_MEMORY_END {
        Some(MAX_PHYSICAL_MEMORY_END)
    } else {
        Some(end as u64)
    }
}

/// The end of memory, out of the size that the firmware tells.
pub fn discover_physical_memory_end(ram_size: u64, kernel_heap: u64) -> (r: Option<u64>)
    requires
        HIGH_MEMORY_START + kernel_heap <= MAX_PHYSICAL_MEMORY_END,
    ensures
        r == memory_end(ram_size, kernel_heap),
{
    if ram_size < LOW_MEMORY_END {
        return None;
    }
    let high_size: u64 = ram_size - LOW_MEMORY_END;
    match HIGH_MEMORY_START.checked_add(high_size) {
        None => None,
        Some(end) => {
            let minimum: u64 = HIGH_MEMORY_START + kernel_heap;
            if end < minimum {
                Some(minimum)
            } else if end > MAX_PHYSICAL_MEMORY_END {
                Some(MAX_PHYSICAL_MEMORY_END)
            } else {
                Some(end)
            }
        },
    }
}

/// More memory never ends earlier.
pub proof fn memory_end_is_monotone(a: u64, b: u64, kernel_heap: u64)
    requires
        HIGH_MEMORY_START + kernel_heap <= MAX_PHYSICAL_MEMORY_END,
        a <= b,
        memory_end(a, kernel_heap) is Some,
        memory_end(b, kernel_heap) is Some,
    ensures
        HIGH_MEMORY_START + kernel_heap <= memory_end(a, kernel_heap)->0,
        memory_end(a, kernel_heap)->0 <= memory_end(b, kernel_heap)->0,
        memory_end(b, kernel_heap)->0 <= MAX_PHYSICAL_MEMORY_END,
{
}

/// What is set up, in this order.
pub fn init_kernel() -> (r: Vec<BootStep>)
    ensures
        r@ == seq![
            BootStep::KernelExtensions,
            BootStep::ClockFrequency,
            BootStep::Trap,
            BootStep::Memory,
            BootStep::Banner,
            BootStep::Realtime,
            BootStep::Network,
        ],
{
    vec![
        BootStep::KernelExtensions,
        BootStep::ClockFrequency,
        BootStep::Trap,
        BootStep::Memory,
        BootStep::Banner,
        BootStep::Realtime,
        BootStep::Network,
    ]
}

/// What starts the other processors.
pub fn start_secondary_cpus() -> (r: Vec<SmpStep>)
    ensures
        r@ == seq![SmpStep::PublishBootReady, SmpStep::StartSecondary],
{
    vec![SmpStep::PublishBootReady, SmpStep::StartSecondary]
}

/// The other processors wait until they are let go.
pub fn release_secondary_cpus() -> (r: Vec<SmpStep>)
    ensures
        r@ == seq![SmpStep::ReleaseSecondary],
{
    vec![SmpStep::ReleaseSecondary]
}

/// The report of a panic.
pub fn report_panic(location: Option<(&str, u32)>, message: &str) -> (r: String)
    ensures
        r@ == panic_text(place(location), message@),
{
    report_default_panic(location, message)
}

/// Nothing is told of a trap.
pub fn report_trap() -> (r: Vec<Piece>)
    ensures
        pieces(r@).len() == 0,
{
    Vec::new()
}

/// Nothing is told of a page that could not be brought in.
pub fn report_fault_in_failure(_va: usize, _sp: usize, _error: isize) -> (r: Vec<Piece>)
    ensures
        pieces(r@).len() == 0,
{
    Vec::new()
}

/// The machine is switched off.
pub fn shutdown(failure: bool) -> (r: PowerAction)
    ensures
        r == (PowerAction::Shutdown { failure }),
{
    PowerAction::Shutdown { failure }
}

/// The machine is switched off without a failure.
pub fn poweroff() -> (r: PowerAction)
    ensures
        r == (PowerAction::Shutdown { failure: false }),
{
    shutdown(false)
}

/// Memory over the low 256 MiB lies at the high start; it ends there where all of it is, but
/// not below the kernel's heap nor above the last address.
pub proof fn high_memory_ends_with_the_machines(ram: u64, heap: u64)
    requires
        heap <= 0x1_0000_0000,
    ensures
        ram < 0x1000_0000 ==> memory_end(ram, heap) is None,
        0x1000_0000 + heap <= ram && ram <= 0x9_0000_0000 ==> memory_end(ram, heap) == Some(
            (0x8000_0000 + (ram - 0x1000_0000)) as u64,
        ),
        0x1000_0000 <= ram < 0x1000_0000 + heap ==> memory_end(ram, heap) == Some(
            (0x8000_0000 + heap) as u64,
        ),
        0x9_0000_0000 < ram < 0x10_0000_0000 ==> memory_end(ram, heap) == Some(0x9_7000_0000u64),
{
}

} // verus!
