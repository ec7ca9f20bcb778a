//! The VisionFive 2 board.

use crate::format::{decimal, hexadecimal, push_decimal, push_hexadecimal};
use crate::platform::{
    panic_text, place, regions_disjoint, report_default_panic, BootStep, DevError, DevResult,
    PowerAction, SmpStep,
};
use vstd::prelude::*;
use vstd::string::StringExecFns;

verus! {

pub const ROOT_DISK_BASE_BLOCK: usize = 526336;

pub const ALLOW_MISSING_ROOT: bool = false;

pub const HARDWARE_CLOCK_FREQ: usize = 4_000_000;

pub const USER_CLOCK_FREQ: usize = HARDWARE_CLOCK_FREQ;

pub const ACCOUNTING_CLOCK_FREQ: usize = HARDWARE_CLOCK_FREQ;

pub const MEMORY_START: u64 = 0x4020_0000;

pub const MEMORY_END: u64 = 0x8000_0000;

pub const MAX_PHYSICAL_MEMORY_END: u64 = 0x1_4000_0000;

pub const RAM_BASE: u64 = 0x4000_0000;

/// Where the serial line is.
pub const UART_BASE: usize = 0x1000_0000;

/// The serial line's register that tells whether it can take a byte.
pub const UART_STATUS: usize = 20;

/// The serial line can take a byte.
pub const LSR_TX_EMPTY: u32 = 0x20;

/// The regions of the devices: address and size.
pub open spec fn mmio_regions() -> Seq<(usize, usize)> {
    seq![
        (0x1000_0000usize, 0x00_1000usize),
        (0x0200_0000usize, 0x00_1000usize),
        (0x0c00_0000usize, 0x400_0000usize),
        (0x1601_0000usize, 0x4_0000usize),
    ]
}

/// The regions of the devices: address and size.
pub fn mmio() -> (r: Vec<(usize, usize)>)
    ensures
        r@ == mmio_regions(),
{
    let r = vec![
        (0x1000_0000, 0x00_1000),
        (0x0200_0000, 0x00_1000),
        (0x0c00_0000, 0x400_0000),
        (0x1601_0000, 0x4_0000),
    ];
    proof {
        assert(r@ =~= mmio_regions());
    }
    r
}

/// The regions of the devices do not overlap.
pub proof fn regions_are_disjoint()
    ensures
        regions_disjoint(mmio_regions()),
{
}

/// The word to write to the serial line, once its status says that it can take
/// a byte; nothing as long as it cannot.
pub fn direct_console_putchar(status: u32, c: u8) -> (r: Option<u32>)
    ensures
        r == (if status & LSR_TX_EMPTY != 0 {
            Some(c as u32)
        } else {
            None
        }),
{
    if status & LSR_TX_EMPTY != 0 {
        Some(c as u32)
    } else {
        None
    }
}

/// The greeting, before the end of memory is looked up in the device tree.
pub fn early_init(hart_id: usize, fdt_pa: usize) -> (r: String)
    ensures
        r@ == "[vf2] Hello RespOS on VisionFive 2 (hart_id="@ + decimal(hart_id as nat)
            + ", dtb=0x"@ + hexadecimal(fdt_pa as nat) + ")\n"@,
{
    let mut out = String::from_str("[vf2] Hello RespOS on VisionFive 2 (hart_id=");
    push_decimal(&mut out, hart_id as u64);
    out.append(", dtb=0x");
    push_hexadecimal(&mut out, fdt_pa as u64);
    out.append(")\n");
    out
}

/// What is told once the end of memory is known.
pub fn memory_end_note(end: usize) -> (r: String)
    ensures
        r@ == "[vf2] physical_memory_end = 0x"@ + hexadecimal(end as nat) + "\n"@,
{
    let mut out = String::from_str("[vf2] physical_memory_end = 0x");
    push_hexadecimal(&mut out, end as u64);
    out.append("\n");
    out
}

/// What is set up, in this order.
pub fn init_kernel() -> (r: Vec<BootStep>)
    ensures
        r@ == seq![BootStep::Trap, BootStep::Memory, BootStep::DirectUart, BootStep::Banner],
{
    vec![BootStep::Trap, BootStep::Memory, BootStep::DirectUart, BootStep::Banner]
}

/// The board runs on one processor.
pub fn start_secondary_cpus() -> (r: Vec<SmpStep>)
    ensures
        r@ == Seq::<SmpStep>::empty(),
{
    Vec::new()
}

/// The board runs on one processor.
pub fn release_secondary_cpus() -> (r: Vec<SmpStep>)
    ensures
        r@ == Seq::<SmpStep>::empty(),
{
    Vec::new()
}

/// The only block device is the card.
pub fn new_block_device(index: usize) -> (r: DevResult<()>)
    ensures
        r == (if index == 0 {
            Ok(())
        } else {
            Err(DevError::Unsupported)
        }),
{
    if index != 0 {
        return Err(DevError::Unsupported);
    }
    Ok(())
}

/// The report of a panic.
pub fn report_panic(location: Option<(&str, u32)>, message: &str) -> (r: String)
    ensures
        r@ == panic_text(place(location), message@),
{
    report_default_panic(location, message)
}

/// The board is switched off.
pub fn shutdown(failure: bool) -> (r: PowerAction)
    ensures
        r == (PowerAction::Shutdown { failure }),
{
    PowerAction::Shutdown { failure }
}

/// The board cannot be switched off without errors on its power controller: it
/// starts anew instead, which ends everything as well.
pub fn poweroff() -> (r: PowerAction)
    ensures
        r == PowerAction::Restart,
{
    PowerAction::Restart
}

} // verus!
