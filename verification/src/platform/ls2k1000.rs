//! The Loongson 2K1000 board.

use crate::platform::{
    pieces, place, regions_disjoint, say, say_hex, BootStep, DevError, DevResult, Piece, PieceView,
    PowerAction, SmpStep,
};
use vstd::prelude::*;

verus! {

pub const ROOT_DISK_BASE_BLOCK: usize = 0;

pub const ALLOW_MISSING_ROOT: bool = true;

pub const FIRMWARE_PAGING_ACTIVE: bool = true;

pub const PRESERVE_UNCACHED_DMW0: bool = true;

pub const UNCACHED_MMIO: bool = true;

pub const HAS_VIRTIO_PCI: bool = false;

pub const MEMORY_START: u64 = 0x0020_0000;

pub const LOW_MEMORY_END: u64 = 0x0b00_0000;

pub const HIGH_MEMORY_START: u64 = 0x9000_0000;

pub const MEMORY_END: u64 = 0xc000_0000;

pub const MAX_PHYSICAL_MEMORY_END: u64 = 0xc000_0000;

pub const UART_BASE: usize = 0x1fe2_0000;

/// Behind the largest end of memory that the device tree can tell.
pub const MEMORY_END_LIMIT: u64 = 0x1_0000_0000_0000;

/// The regions of the devices: address and size.
pub open spec fn mmio_regions() -> Seq<(usize, usize)> {
    seq![
        (0x1fe2_0000usize, 0x1000usize),
        (0x1fe0_1400usize, 0x1000usize),
        (0x4004_0000usize, 0x1000usize),
        (0x4005_0000usize, 0x1000usize),
        (0x400e_0000usize, 0x1000usize),
    ]
}

/// The regions of the devices: address and size.
pub fn mmio() -> (r: Vec<(usize, usize)>)
    ensures
        r@ == mmio_regions(),
{
    let r = vec![
        (0x1fe2_0000, 0x1000),
        (0x1fe0_1400, 0x1000),
        (0x4004_0000, 0x1000),
        (0x4005_0000, 0x1000),
        (0x400e_0000, 0x1000),
    ];
    proof {
        assert(r@ =~= mmio_regions());
    }
    r
}

/// The regions of the devices do not overlap.
pub proof fn regions_are_disjoint()
    ensures
        regions_disjoint(mmio_regions()),
{
}

/// What is told once the end of memory is known.
pub fn early_init(memory_end: usize) -> (r: Vec<Piece>)
    ensures
        pieces(r@) == seq![
            PieceView::Text("RespOS 2K1000LA: enabling MMU, mem_end="@),
            PieceView::Hex(memory_end),
            PieceView::Text("\n"@),
        ],
{
    let mut out: Vec<Piece> = Vec::new();
    say(&mut out, "RespOS 2K1000LA: enabling MMU, mem_end=");
    say_hex(&mut out, memory_end);
    say(&mut out, "\n");
    proof {
        assert(pieces(out@) =~= seq![
            PieceView::Text("RespOS 2K1000LA: enabling MMU, mem_end="@),
            PieceView::Hex(memory_end),
            PieceView::Text("\n"@),
        ]);
    }
    out
}

/// The end of memory that the device tree tells, if it lies behind the start of
/// memory and is an address.
pub fn discover_physical_memory_end(told: Option<u64>) -> (r: Option<u64>)
    ensures
        r == (match told {
            Some(end) if MEMORY_START < end <= MEMORY_END_LIMIT => Some(end),
            _ => None,
        }),
{
    match told {
        Some(end) => {
            if end > MEMORY_START && end <= MEMORY_END_LIMIT {
                Some(end)
            } else {
                None
            }
        },
        None => None,
    }
}

/// What is set up and told, in this order.
pub fn init_kernel() -> (r: Vec<BootStep>)
    ensures
        r@ == seq![
            BootStep::KernelExtensions,
            BootStep::NoteHighHalf,
            BootStep::Memory,
            BootStep::NoteMemory,
            BootStep::NoteHeap,
            BootStep::InterruptController,
            BootStep::NoteInterrupts,
            BootStep::Trap,
        ],
{
    vec![
        BootStep::KernelExtensions,
        BootStep::NoteHighHalf,
        BootStep::Memory,
        BootStep::NoteMemory,
        BootStep::NoteHeap,
        BootStep::InterruptController,
        BootStep::NoteInterrupts,
        BootStep::Trap,
    ]
}

/// What is told at a step of the start.
pub open spec fn note_of(step: BootStep, free_frames: usize) -> Seq<PieceView> {
    match step {
        BootStep::NoteHighHalf => seq![
            PieceView::Text("[RespOS 2K1000LA] entered high half (3-level paging OK)\n"@),
        ],
        BootStep::NoteMemory => seq![
            PieceView::Text("[RespOS 2K1000LA] mm::init OK, free frames="@),
            PieceView::Hex(free_frames),
            PieceView::Text("\n"@),
        ],
        BootStep::NoteHeap => seq![PieceView::Text("[RespOS 2K1000LA] heap OK\n"@)],
        BootStep::NoteInterrupts => seq![PieceView::Text("[RespOS 2K1000LA] LIOINTC masked\n"@)],
        _ => Seq::empty(),
    }
}

/// What is told at a step of the start.
pub fn boot_note(step: BootStep, free_frames: usize) -> (r: Vec<Piece>)
    ensures
        pieces(r@) == note_of(step, free_frames),
{
    let mut out: Vec<Piece> = Vec::new();
    match step {
        BootStep::NoteHighHalf => {
            say(&mut out, "[RespOS 2K1000LA] entered high half (3-level paging OK)\n");
        },
        BootStep::NoteMemory => {
            say(&mut out, "[RespOS 2K1000LA] mm::init OK, free frames=");
            say_hex(&mut out, free_frames);
            say(&mut out, "\n");
        },
        BootStep::NoteHeap => {
            say(&mut out, "[RespOS 2K1000LA] heap OK\n");
        },
        BootStep::NoteInterrupts => {
            say(&mut out, "[RespOS 2K1000LA] LIOINTC masked\n");
        },
        _ => {},
    }
    proof {
        assert(pieces(out@) =~= note_of(step, free_frames));
    }
    out
}

/// The board runs on one processor.
pub fn start_secondary_cpus() -> (r: Vec<SmpStep>)
    ensures
        r@ == Seq::<SmpStep>::empty(),
{
    Vec::new()
}

/// The board runs on one processor.
pub fn release_secondary_cpus() -> (r: Vec<SmpStep>)
    ensures
        r@ == Seq::<SmpStep>::empty(),
{
    Vec::new()
}

/// The only block device is the disk.
pub fn new_block_device(index: usize) -> (r: DevResult<()>)
    ensures
        r == (if index == 0 {
            Ok(())
        } else {
            Err(DevError::InvalidParam)
        }),
{
    if index != 0 {
        return Err(DevError::InvalidParam);
    }
    Ok(())
}

/// What has been reported already: each kind is reported once only.
#[derive(Debug, Clone, Copy, PartialEq, Eq, Structural)]
pub struct Reported {
    pub panic: bool,
    pub trap: bool,
    pub fault: bool,
}

/// The report of a panic.
pub open spec fn panic_pieces(location: Option<(Seq<char>, u32)>) -> Seq<PieceView> {
    match location {
        Some((file, line)) => seq![
            PieceView::Text("Panicked at "@),
            PieceView::Text(file),
            PieceView::Text(":"@),
            PieceView::Hex(line as usize),
            PieceView::Text("\n"@),
        ],
        None => seq![PieceView::Text("Panicked at "@), PieceView::Text("\n"@)],
    }
}

/// The report of the first panic; nothing for later ones.
pub fn report_panic(done: &mut Reported, location: Option<(&str, u32)>) -> (r: Vec<Piece>)
    ensures
        *final(done) == (Reported { panic: true, ..*old(done) }),
        pieces(r@) == (if old(done).panic {
            Seq::empty()
        } else {
            panic_pieces(place(location))
        }),
{
    let mut out: Vec<Piece> = Vec::new();
    if !done.panic {
        done.panic = true;
        say(&mut out, "Panicked at ");
        if let Some((file, line)) = location {
            say(&mut out, file);
            say(&mut out, ":");
            say_hex(&mut out, line as usize);
        }
        say(&mut out, "\n");
        proof {
            assert(pieces(out@) =~= panic_pieces(place(location)));
        }
    } else {
        proof {
            assert(pieces(out@) =~= Seq::empty());
        }
    }
    out
}

/// The state of the processor at a trap.
#[derive(Debug, Clone, Copy, PartialEq, Eq, Structural)]
pub struct TrapState {
    pub estat: usize,
    pub era: usize,
    pub badv: usize,
    pub sp: usize,
    /// The instruction that trapped.
    pub inst: usize,
}

/// The report of a trap.
pub open spec fn trap_pieces(tag: Seq<char>, t: TrapState) -> Seq<PieceView> {
    seq![
        PieceView::Text("[trap] "@),
        PieceView::Text(tag),
        PieceView::Text(" est="@),
        PieceView::Hex(t.estat),
        PieceView::Text(" era="@),
        PieceView::Hex(t.era),
        PieceView::Text(" badv="@),
        PieceView::Hex(t.badv),
        PieceView::Text(" sp="@),
        PieceView::Hex(t.sp),
        PieceView::Text(" inst="@),
        PieceView::Hex(t.inst),
        PieceView::Text("\n"@),
    ]
}

/// The report of the first trap; nothing for later ones.
pub fn report_trap(done: &mut Reported, tag: &str, t: TrapState) -> (r: Vec<Piece>)
    ensures
        *final(done) == (Reported { trap: true, ..*old(done) }),
        pieces(r@) == (if old(done).trap {
            Seq::empty()
        } else {
            trap_pieces(tag@, t)
        }),
{
    let mut out: Vec<Piece> = Vec::new();
    if done.trap {
        proof {
            assert(pieces(out@) =~= Seq::empty());
        }
        return out;
    }
    done.trap = true;
    say(&mut out, "[trap] ");
    say(&mut out, tag);
    say(&mut out, " est=");
    say_hex(&mut out, t.estat);
    say(&mut out, " era=");
    say_hex(&mut out, t.era);
    say(&mut out, " badv=");
    say_hex(&mut out, t.badv);
    say(&mut out, " sp=");
    say_hex(&mut out, t.sp);
    say(&mut out, " inst=");
    say_hex(&mut out, t.inst);
    say(&mut out, "\n");
    proof {
        assert(pieces(out@) =~= trap_pieces(tag@, t));
    }
    out
}

/// The report of a page that could not be brought in.
pub open spec fn fault_pieces(va: usize, sp: usize, error: isize) -> Seq<PieceView> {
    seq![
        PieceView::Text("[trap] faultin-fail va="@),
        PieceView::Hex(va),
        PieceView::Text(" sp="@),
        PieceView::Hex(sp),
        PieceView::Text(" err="@),
        PieceView::Hex(error as usize),
        PieceView::Text("\n"@),
    ]
}

/// The report of the first page that could not be brought in; nothing for later
/// ones.
pub fn report_fault_in_failure(done: &mut Reported, va: usize, sp: usize, error: isize) -> (r: Vec<
    Piece,
>)
    ensures
        *final(done) == (Reported { fault: true, ..*old(done) }),
        pieces(r@) == (if old(done).fault {
            Seq::empty()
        } else {
            fault_pieces(va, sp, error)
        }),
{
    let mut out: Vec<Piece> = Vec::new();
    if done.fault {
        proof {
            assert(pieces(out@) =~= Seq::empty());
        }
        return out;
    }
    done.fault = true;
    say(&mut out, "[trap] faultin-fail va=");
    say_hex(&mut out, va);
    say(&mut out, " sp=");
    say_hex(&mut out, sp);
    say(&mut out, " err=");
    say_hex(&mut out, error as usize);
    say(&mut out, "\n");
    proof {
        assert(pieces(out@) =~= fault_pieces(va, sp, error));
    }
    out
}

/// The board is switched off.
pub fn shutdown(failure: bool) -> (r: PowerAction)
    ensures
        r == (PowerAction::Shutdown { failure }),
{
    PowerAction::Shutdown { failure }
}

/// The board is switched off without a failure.
pub fn poweroff() -> (r: PowerAction)
    ensures
        r == (PowerAction::Shutdown { failure: false }),
{
    shutdown(false)
}

} // verus!
