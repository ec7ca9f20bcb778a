//! The machines that the kernel runs on: the order of their start, their
//! devices, what they report, and how they are switched off.
//!
//! Each machine has a module of its own with the same functions. They say what
//! is to be done; the caller does it.

pub mod jh7110;
pub mod ls2k1000;
pub mod qemu_loongarch64;
pub mod qemu_rv64;

use crate::format::{decimal, push_decimal};
use vstd::prelude::*;
use vstd::string::StringExecFns;

verus! {

/// A part of the kernel that is set up at the start.
#[derive(Debug, Clone, Copy, PartialEq, Eq, Structural)]
pub enum BootStep {
    /// Extensions of the processor that the kernel uses.
    KernelExtensions,
    /// The speed of the clock.
    ClockFrequency,
    /// The traps.
    Trap,
    /// Memory management.
    Memory,
    /// Output goes straight to the serial line.
    DirectUart,
    /// The banner.
    Banner,
    /// The time of day.
    Realtime,
    /// The network.
    Network,
    /// The interrupt controller.
    InterruptController,
    /// The note that the upper half of the address space was entered.
    NoteHighHalf,
    /// The note that memory management works, with the number of free frames.
    NoteMemory,
    /// The note that the heap works.
    NoteHeap,
    /// The note that the interrupt controller is masked.
    NoteInterrupts,
}

/// What is done about the other processors.
#[derive(Debug, Clone, Copy, PartialEq, Eq, Structural)]
pub enum SmpStep {
    /// Tells the others that the first one is ready.
    PublishBootReady,
    /// Starts the others.
    StartSecondary,
    /// Lets the others go on.
    ReleaseSecondary,
}

/// How the machine stops.
#[derive(Debug, Clone, Copy, PartialEq, Eq, Structural)]
pub enum PowerAction {
    Shutdown { failure: bool },
    Restart,
}

/// Why there is no device.
#[derive(Debug, Clone, Copy, PartialEq, Eq, Structural)]
pub enum DevError {
    InvalidParam,
    Unsupported,
    BadState,
}

/// Outcome of an operation of a device.
pub type DevResult<T> = Result<T, DevError>;

/// A piece of a report that is written before anything else works.
#[derive(Debug)]
pub enum Piece {
    Text(String),
    Hex(usize),
}

/// A piece of a report as a value.
pub enum PieceView {
    Text(Seq<char>),
    Hex(usize),
}

impl View for Piece {
    type V = PieceView;

    open spec fn view(&self) -> PieceView {
        match self {
            Piece::Text(t) => PieceView::Text(t@),
            Piece::Hex(n) => PieceView::Hex(*n),
        }
    }
}

/// The pieces of a report as values.
pub open spec fn pieces(s: Seq<Piece>) -> Seq<PieceView> {
    s.map_values(|p: Piece| p@)
}

pub(crate) fn say(out: &mut Vec<Piece>, text: &str)
    ensures
        pieces(final(out)@) == pieces(old(out)@).push(PieceView::Text(text@)),
{
    out.push(Piece::Text(String::from_str(text)));
    proof {
        assert(pieces(out@) =~= pieces(old(out)@).push(PieceView::Text(text@)));
    }
}

pub(crate) fn say_hex(out: &mut Vec<Piece>, n: usize)
    ensures
        pieces(final(out)@) == pieces(old(out)@).push(PieceView::Hex(n)),
{
    out.push(Piece::Hex(n));
    proof {
        assert(pieces(out@) =~= pieces(old(out)@).push(PieceView::Hex(n)));
    }
}

/// The report of a panic.
pub open spec fn panic_text(location: Option<(Seq<char>, u32)>, message: Seq<char>) -> Seq<char> {
    match location {
        Some((file, line)) => "Panicked at "@ + file + ":"@ + decimal(line as nat) + " "@ + message
            + "\n"@,
        None => "Panicked: "@ + message + "\n"@,
    }
}

/// A place in a file as a value.
pub open spec fn place(location: Option<(&str, u32)>) -> Option<(Seq<char>, u32)> {
    match location {
        Some((file, line)) => Some((file@, line)),
        None => None,
    }
}

/// The report of a panic: the file and line, where they are known, and the
/// message.
pub fn report_default_panic(location: Option<(&str, u32)>, message: &str) -> (r: String)
    ensures
        r@ == panic_text(place(location), message@),
{
    match location {
        Some((file, line)) => {
            let mut out = String::from_str("Panicked at ");
            out.append(file);
            out.append(":");
            push_decimal(&mut out, line as u64);
            out.append(" ");
            out.append(message);
            out.append("\n");
            out
        },
        None => {
            let mut out = String::from_str("Panicked: ");
            out.append(message);
            out.append("\n");
            out
        },
    }
}

/// The place of a device in a table of regions.
pub open spec fn region_at(table: Seq<(usize, usize)>, index: usize) -> DevResult<(usize, usize)> {
    if index < table.len() {
        Ok(table[index as int])
    } else {
        Err(DevError::InvalidParam)
    }
}

/// No two regions of a table overlap.
pub open spec fn regions_disjoint(table: Seq<(usize, usize)>) -> bool {
    forall|i: int, j: int|
        0 <= i < j < table.len() ==> {
            let (a, n) = #[trigger] table[i];
            let (b, m) = #[trigger] table[j];
            a + n <= b || b + m <= a
        }
}

/// A region is found by its place in the table; there is none beyond the end.
pub proof fn regions_are_found_by_place(table: Seq<(usize, usize)>, i: usize)
    ensures
        i < table.len() ==> region_at(table, i) == Ok::<(usize, usize), DevError>(table[i as int]),
        i >= table.len() ==> region_at(table, i) == Err::<(usize, usize), DevError>(
            DevError::InvalidParam,
        ),
{
}

} // verus!
