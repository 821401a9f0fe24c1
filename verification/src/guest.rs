//! The guest as the orchestrator sees it: where each piece lies in guest
//! memory, which memory map the kernel is told, and what to do at each exit.

use crate::bootparam::{BootParams, E820Entry, BOOT_PARAMS_SIZE, E820_RAM, E820_RESERVED};
use crate::kvm::{IoDirection, VmExit};
use vstd::prelude::*;

verus! {

/// Size of guest memory: 1 GiB.
pub const MAPPING_SIZE: usize = 0x4000_0000;

/// Guest-physical address of `boot_params`.
pub const ADDR_BOOT_PARAMS: usize = 0x1_0000;

/// Guest-physical address of the kernel command line.
pub const ADDR_CMDLINE: usize = 0x2_0000;

/// Guest-physical address of the protected-mode kernel.
pub const ADDR_KERNEL32: usize = 0x10_0000;

/// Guest-physical address of the initial RAM filesystem.
pub const ADDR_INITRAMFS: usize = 0xF0_0000;

/// Distance of the 64-bit entry point from the start of the protected-mode
/// kernel.
pub const ENTRY64_OFFSET: usize = 0x200;

/// Where the extended BIOS data area starts: the end of low RAM.
pub const EBDA_START: u64 = 0x9_FC00;

/// Size of the extended BIOS data area.
pub const EBDA_SIZE: u64 = 0x400;

/// Where RAM goes on above the legacy hole.
pub const HIGH_RAM_START: u64 = 0x10_0000;

/// Base port of the guest's serial device.
pub const SERIAL_PORT: u16 = 0x3F8;

/// Line status that tells a polling guest that the transmitter is ready.
pub const XMTRDY: u8 = 0x20;

/// The memory map of a guest with `memory_size` bytes: RAM below the
/// extended BIOS data area, that area as reserved, and RAM from 1 MiB to the
/// end of memory.
pub open spec fn spec_e820_map(memory_size: u64) -> Seq<E820Entry> {
    seq![
        E820Entry { addr: 0, size: EBDA_START, type_: E820_RAM },
        E820Entry { addr: EBDA_START, size: EBDA_SIZE, type_: E820_RESERVED },
        E820Entry {
            addr: HIGH_RAM_START,
            size: (memory_size - HIGH_RAM_START) as u64,
            type_: E820_RAM,
        },
    ]
}

/// Returns the memory map that the kernel is told. The guest must reach
/// above 1 MiB.
pub fn e820_map(memory_size: u64) -> (map: Vec<E820Entry>)
    requires
        memory_size >= HIGH_RAM_START,
    ensures
        map@ == spec_e820_map(memory_size),
{
    let mut map: Vec<E820Entry> = Vec::new();
    map.push(E820Entry { addr: 0, size: EBDA_START, type_: E820_RAM });
    map.push(E820Entry { addr: EBDA_START, size: EBDA_SIZE, type_: E820_RESERVED });
    map.push(
        E820Entry { addr: HIGH_RAM_START, size: memory_size - HIGH_RAM_START, type_: E820_RAM },
    );
    map
}

/// `memory` with `data` written at offset `at`.
pub open spec fn with_bytes(memory: Seq<u8>, at: int, data: Seq<u8>) -> Seq<u8> {
    Seq::new(
        memory.len(),
        |k: int|
            if at <= k < at + data.len() {
                data[k - at]
            } else {
                memory[k]
            },
    )
}

/// Copies `data` into `memory` at offset `at`.
pub fn copy_into(memory: &mut [u8], at: usize, data: &[u8])
    requires
        at + data@.len() <= old(memory)@.len(),
    ensures
        final(memory)@ == with_bytes(old(memory)@, at as int, data@),
{
    let total: usize = memory.len();
    let len: usize = data.len();
    let mut k: usize = 0;
    while k < len
        invariant
            k <= len,
            len == data@.len(),
            memory@.len() == old(memory)@.len(),
            at + len <= memory@.len() == total,
            forall|j: int| 0 <= j < k ==> memory@[at + j] == data@[j],
            forall|j: int|
                0 <= j < memory@.len() && !(at <= j < at + k) ==> memory@[j] == old(memory)@[j],
        decreases len - k,
    {
        memory[at + k] = data[k];
        k += 1;
    }
}

/// Guest memory `memory` with the four images written to their addresses, in
/// this order: `boot_params`, the protected-mode kernel, the command line,
/// the initial RAM filesystem. Where two of them overlap, the later one
/// stands.
pub open spec fn with_images(
    memory: Seq<u8>,
    params: Seq<u8>,
    cmdline: Seq<u8>,
    kernel32: Seq<u8>,
    initramfs: Seq<u8>,
) -> Seq<u8> {
    with_bytes(
        with_bytes(
            with_bytes(
                with_bytes(memory, ADDR_BOOT_PARAMS as int, params),
                ADDR_KERNEL32 as int,
                kernel32,
            ),
            ADDR_CMDLINE as int,
            cmdline,
        ),
        ADDR_INITRAMFS as int,
        initramfs,
    )
}

/// Each of the four images ends inside a memory of `memory` bytes.
pub open spec fn images_fit(memory: nat, cmdline: nat, kernel32: nat, initramfs: nat) -> bool {
    &&& ADDR_BOOT_PARAMS + BOOT_PARAMS_SIZE <= memory
    &&& ADDR_CMDLINE + cmdline <= memory
    &&& ADDR_KERNEL32 + kernel32 <= memory
    &&& ADDR_INITRAMFS + initramfs <= memory
}

/// No two of the four images share a byte.
pub open spec fn images_apart(cmdline: nat, kernel32: nat) -> bool {
    &&& ADDR_CMDLINE + cmdline <= ADDR_KERNEL32
    &&& ADDR_KERNEL32 + kernel32 <= ADDR_INITRAMFS
}

/// The command line ends with a NUL byte.
pub open spec fn nul_terminated(cmdline: Seq<u8>) -> bool {
    cmdline.len() > 0 && cmdline.last() == 0
}

/// Tells whether the four images end inside a memory of `memory` bytes and
/// the command line ends with NUL: whether `place_images` may be called.
pub fn images_placeable(memory: usize, cmdline: &[u8], kernel32: usize, initramfs: usize) -> (ok:
    bool)
    ensures
        ok == (images_fit(memory as nat, cmdline@.len(), kernel32 as nat, initramfs as nat)
            && nul_terminated(cmdline@)),
{
    let n: usize = cmdline.len();
    memory >= ADDR_BOOT_PARAMS + BOOT_PARAMS_SIZE && memory >= ADDR_CMDLINE && n <= memory
        - ADDR_CMDLINE && memory >= ADDR_KERNEL32 && kernel32 <= memory - ADDR_KERNEL32 && memory
        >= ADDR_INITRAMFS && initramfs <= memory - ADDR_INITRAMFS && n > 0 && cmdline[n - 1] == 0
}

/// Writes `boot_params`, the kernel, the command line and the initial RAM
/// filesystem into guest memory, each at its fixed address.
pub fn place_images(
    memory: &mut [u8],
    boot_params: &BootParams,
    cmdline: &[u8],
    kernel32: &[u8],
    initramfs: &[u8],
)
    requires
        images_fit(old(memory)@.len(), cmdline@.len(), kernel32@.len(), initramfs@.len()),
        nul_terminated(cmdline@),
    ensures
        final(memory)@ == with_images(
            old(memory)@,
            boot_params@,
            cmdline@,
            kernel32@,
            initramfs@,
        ),
{
    copy_into(memory, ADDR_BOOT_PARAMS, boot_params.bytes.as_slice());
    copy_into(memory, ADDR_KERNEL32, kernel32);
    copy_into(memory, ADDR_CMDLINE, cmdline);
    copy_into(memory, ADDR_INITRAMFS, initramfs);
}

/// Where no two images overlap, each can be read back from its address, and
/// every byte outside the four is as it was.
pub proof fn lemma_images_read_back(
    memory: Seq<u8>,
    params: Seq<u8>,
    cmdline: Seq<u8>,
    kernel32: Seq<u8>,
    initramfs: Seq<u8>,
)
    requires
        params.len() == BOOT_PARAMS_SIZE,
        images_fit(memory.len(), cmdline.len(), kernel32.len(), initramfs.len()),
        images_apart(cmdline.len(), kernel32.len()),
    ensures
        ({
            let filled = with_images(memory, params, cmdline, kernel32, initramfs);
            &&& filled.len() == memory.len()
            &&& filled.subrange(ADDR_BOOT_PARAMS as int, ADDR_BOOT_PARAMS + params.len())
                == params
            &&& filled.subrange(ADDR_CMDLINE as int, ADDR_CMDLINE + cmdline.len()) == cmdline
            &&& filled.subrange(ADDR_KERNEL32 as int, ADDR_KERNEL32 + kernel32.len())
                == kernel32
            &&& filled.subrange(ADDR_INITRAMFS as int, ADDR_INITRAMFS + initramfs.len())
                == initramfs
            &&& forall|k: int|
                0 <= k < memory.len() && !(ADDR_BOOT_PARAMS <= k < ADDR_BOOT_PARAMS + params.len())
                    && !(ADDR_CMDLINE <= k < ADDR_CMDLINE + cmdline.len()) && !(ADDR_KERNEL32 <= k
                    < ADDR_KERNEL32 + kernel32.len()) && !(ADDR_INITRAMFS <= k < ADDR_INITRAMFS
                    + initramfs.len()) ==> filled[k] == memory[k]
        }),
{
    let filled = with_images(memory, params, cmdline, kernel32, initramfs);
    assert(filled.subrange(ADDR_BOOT_PARAMS as int, ADDR_BOOT_PARAMS + params.len()) =~= params);
    assert(filled.subrange(ADDR_CMDLINE as int, ADDR_CMDLINE + cmdline.len()) =~= cmdline);
    assert(filled.subrange(ADDR_KERNEL32 as int, ADDR_KERNEL32 + kernel32.len()) =~= kernel32);
    assert(filled.subrange(ADDR_INITRAMFS as int, ADDR_INITRAMFS + initramfs.len())
        =~= initramfs);
}

/// How the run loop goes on after an exit.
#[derive(Clone, Copy, Debug, PartialEq, Eq)]
pub enum Next {
    /// Enter the guest again.
    Resume,
    /// The guest halted: the loop ends normally.
    Halt,
    /// The exit reason, given here, is not handled: the loop ends.
    Fatal(u32),
}

/// What the orchestrator does about one exit.
#[derive(Debug)]
pub struct Service {
    /// How the loop goes on.
    pub next: Next,
    /// A line of guest output that this exit completed, to be printed.
    pub line: Option<Vec<u8>>,
    /// A byte to store in the data slot before the guest is entered again.
    pub reply: Option<u8>,
}

/// Carriage return.
pub const CR: u8 = 0x0D;

/// Line feed.
pub const LF: u8 = 0x0A;

/// The exit is the guest writing `byte` to the serial port.
pub open spec fn serial_output(exit: VmExit, byte: u8) -> bool {
    exit == (VmExit::Io { direction: IoDirection::Out, port: SERIAL_PORT, byte })
}

/// The exit is the guest writing a line end to the serial port.
pub open spec fn ends_line(exit: VmExit) -> bool {
    serial_output(exit, CR) || serial_output(exit, LF)
}

/// How the loop goes on after `exit`: it ends on a halt and on an exit that
/// is not handled, and goes on after port I/O and after a debug event.
pub open spec fn next_of(exit: VmExit) -> Next {
    match exit {
        VmExit::Hlt => Next::Halt,
        VmExit::Io { .. } => Next::Resume,
        VmExit::Debug => Next::Resume,
        VmExit::Other(reason) => Next::Fatal(reason),
    }
}

/// The bytes of the unfinished line after `exit`, where `pending` were the
/// bytes before it: a byte written to the serial port is added, a line end
/// written to it empties the line, and nothing else changes it.
pub open spec fn pending_after(pending: Seq<u8>, exit: VmExit) -> Seq<u8> {
    match exit {
        VmExit::Io { direction: IoDirection::Out, port, byte } => if port != SERIAL_PORT {
            pending
        } else if byte == CR || byte == LF {
            Seq::empty()
        } else {
            pending.push(byte)
        },
        _ => pending,
    }
}

/// The line that `exit` completes, if it completes one: the bytes written
/// since the last line end, without the line end itself.
pub open spec fn line_of(pending: Seq<u8>, exit: VmExit) -> Option<Seq<u8>> {
    if ends_line(exit) {
        Some(pending)
    } else {
        None
    }
}

/// The byte with which a port read is answered: every read is told that the
/// transmitter is ready. Nothing is stored for other exits.
pub open spec fn reply_of(exit: VmExit) -> Option<u8> {
    match exit {
        VmExit::Io { direction: IoDirection::In, .. } => Some(XMTRDY),
        _ => None,
    }
}

/// Decides what to do about `exit`. `pending` holds the bytes of the guest's
/// unfinished output line and is brought up to date.
pub fn service_exit(pending: &mut Vec<u8>, exit: VmExit) -> (service: Service)
    ensures
        final(pending)@ == pending_after(old(pending)@, exit),
        service.next == next_of(exit),
        service.reply == reply_of(exit),
        match service.line {
            Some(line) => line_of(old(pending)@, exit) == Some(line@),
            None => line_of(old(pending)@, exit) is None,
        },
{
    match exit {
        VmExit::Hlt => Service { next: Next::Halt, line: None, reply: None },
        VmExit::Debug => Service { next: Next::Resume, line: None, reply: None },
        VmExit::Other(reason) => Service { next: Next::Fatal(reason), line: None, reply: None },
        VmExit::Io { direction, port, byte } => {
            match direction {
                IoDirection::In => Service { next: Next::Resume, line: None, reply: Some(XMTRDY) },
                IoDirection::Out => {
                    if port != SERIAL_PORT {
                        Service { next: Next::Resume, line: None, reply: None }
                    } else if byte == CR || byte == LF {
                        let mut line: Vec<u8> = Vec::new();
                        core::mem::swap(pending, &mut line);
                        Service { next: Next::Resume, line: Some(line), reply: None }
                    } else {
                        pending.push(byte);
                        Service { next: Next::Resume, line: None, reply: None }
                    }
                },
            }
        },
    }
}

} // verus!
