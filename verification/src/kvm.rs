//! The plain-value side of the hypervisor handle: what is handed to the host
//! interface, and what its exits mean. The handle itself, which owns the
//! device, the VM and the vCPU, makes the system calls with these values.

use vstd::prelude::*;

verus! {

/// Guest-physical base of the identity-map page that the host needs on Intel.
pub const IDENTITY_MAP_ADDR: u64 = 0xFFFF_C000;

/// Guest-physical base of the three pages for the task state segment.
pub const TSS_ADDR: u64 = 0xFFFF_D000;

/// Number of the capability that turns a triple fault into an exit.
pub const CAP_TRIPLE_FAULT_EVENT: u32 = 218;

/// Value of debug register 7 with only its always-set bit 10.
pub const DR7_RESERVED: u64 = 0x0000_0400;

/// Exit reason: port I/O.
pub const EXIT_IO: u32 = 2;

/// Exit reason: debug event.
pub const EXIT_DEBUG: u32 = 4;

/// Exit reason: the guest executed `hlt`.
pub const EXIT_HLT: u32 = 5;

/// Direction of a port access that reads: the guest executed `in`.
pub const IO_IN: u8 = 0;

/// Debug control: guest debugging is on.
pub const GUESTDBG_ENABLE: u32 = 1;

/// Debug control: trap after every instruction.
pub const GUESTDBG_SINGLESTEP: u32 = 2;

/// Reads `kvm_bindings::KVM_EXIT_IO`. The contract gives the number that the
/// bindings define for it.
#[verifier::external_body]
fn kvm_exit_io() -> (code: u32)
    ensures
        code == EXIT_IO,
{
    kvm_bindings::KVM_EXIT_IO
}

/// Reads `kvm_bindings::KVM_EXIT_DEBUG`. The contract gives the number that
/// the bindings define for it.
#[verifier::external_body]
fn kvm_exit_debug() -> (code: u32)
    ensures
        code == EXIT_DEBUG,
{
    kvm_bindings::KVM_EXIT_DEBUG
}

/// Reads `kvm_bindings::KVM_EXIT_HLT`. The contract gives the number that the
/// bindings define for it.
#[verifier::external_body]
fn kvm_exit_hlt() -> (code: u32)
    ensures
        code == EXIT_HLT,
{
    kvm_bindings::KVM_EXIT_HLT
}

/// Reads `kvm_bindings::KVM_GUESTDBG_ENABLE`. The contract gives the number
/// that the bindings define for it.
#[verifier::external_body]
fn kvm_guestdbg_enable() -> (flag: u32)
    ensures
        flag == GUESTDBG_ENABLE,
{
    kvm_bindings::KVM_GUESTDBG_ENABLE
}

/// Reads `kvm_bindings::KVM_GUESTDBG_SINGLESTEP`. The contract gives the
/// number that the bindings define for it.
#[verifier::external_body]
fn kvm_guestdbg_singlestep() -> (flag: u32)
    ensures
        flag == GUESTDBG_SINGLESTEP,
{
    kvm_bindings::KVM_GUESTDBG_SINGLESTEP
}

/// Which way a port access goes.
#[derive(Clone, Copy, Debug, PartialEq, Eq)]
pub enum IoDirection {
    /// The guest reads from the port.
    In,
    /// The guest writes to the port.
    Out,
}

/// Why the vCPU came back from the guest.
#[derive(Clone, Copy, Debug, PartialEq, Eq)]
pub enum VmExit {
    /// The guest halted.
    Hlt,
    /// The guest accessed a port; `byte` is the first byte of the data slot.
    Io { direction: IoDirection, port: u16, byte: u8 },
    /// A debug event: a single step or a breakpoint.
    Debug,
    /// Any other reason, with its code.
    Other(u32),
}

/// The exit that the run state describes, read from its exit reason and,
/// for port I/O, from the direction, the port and the data byte.
pub open spec fn exit_of(reason: u32, direction: u8, port: u16, byte: u8) -> VmExit {
    if reason == EXIT_HLT {
        VmExit::Hlt
    } else if reason == EXIT_DEBUG {
        VmExit::Debug
    } else if reason == EXIT_IO {
        VmExit::Io {
            direction: if direction == IO_IN {
                IoDirection::In
            } else {
                IoDirection::Out
            },
            port,
            byte,
        }
    } else {
        VmExit::Other(reason)
    }
}

/// Tells whether the run state describes a port access: only then do its
/// direction, port and data offset mean anything.
pub fn is_port_io(reason: u32) -> (io: bool)
    ensures
        io == (reason == EXIT_IO),
        io == (exit_of(reason, 0, 0, 0) is Io),
{
    reason == kvm_exit_io()
}

/// Tells the exit reasons apart. `direction`, `port` and `byte` are read only
/// where the reason is port I/O.
pub fn decode_exit(reason: u32, direction: u8, port: u16, byte: u8) -> (exit: VmExit)
    ensures
        exit == exit_of(reason, direction, port, byte),
{
    if reason == kvm_exit_hlt() {
        VmExit::Hlt
    } else if reason == kvm_exit_debug() {
        VmExit::Debug
    } else if reason == kvm_exit_io() {
        let direction = if direction == IO_IN {
            IoDirection::In
        } else {
            IoDirection::Out
        };
        VmExit::Io { direction, port, byte }
    } else {
        VmExit::Other(reason)
    }
}

/// A host-backed range of guest-physical memory, as the host interface takes
/// it.
#[derive(Clone, Copy, Debug, PartialEq, Eq)]
pub struct MemoryRegion {
    pub slot: u32,
    pub flags: u32,
    pub guest_phys_addr: u64,
    pub memory_size: u64,
    pub userspace_addr: u64,
}

/// Describes the one memory slot of the guest: slot 0, no flags,
/// `memory_size` bytes at guest-physical `guest_addr`, backed by the host
/// mapping at `map_addr`.
pub fn user_memory_region(guest_addr: u64, memory_size: u64, map_addr: u64) -> (region:
    MemoryRegion)
    ensures
        region == (MemoryRegion {
            slot: 0,
            flags: 0,
            guest_phys_addr: guest_addr,
            memory_size: memory_size,
            userspace_addr: map_addr,
        }),
{
    MemoryRegion {
        slot: 0,
        flags: 0,
        guest_phys_addr: guest_addr,
        memory_size: memory_size,
        userspace_addr: map_addr,
    }
}

/// What is asked of the host to debug the guest: a control word and the
/// guest's eight debug registers.
#[derive(Clone, Copy, Debug, PartialEq, Eq)]
pub struct GuestDebug {
    pub control: u32,
    pub debugreg: [u64; 8],
}

/// Asks for single-stepping: debugging on, a trap after every instruction,
/// no breakpoint armed in debug register 7.
pub fn debug_request() -> (debug: GuestDebug)
    ensures
        debug.control == GUESTDBG_ENABLE + GUESTDBG_SINGLESTEP,
        debug.debugreg@ == seq![0u64, 0u64, 0u64, 0u64, 0u64, 0u64, 0u64, DR7_RESERVED],
{
    let enable: u32 = kvm_guestdbg_enable();
    let singlestep: u32 = kvm_guestdbg_singlestep();
    assert(enable | singlestep == 3) by (bit_vector)
        requires
            enable == 1,
            singlestep == 2,
    ;
    let mut debugreg: [u64; 8] = [0u64; 8];
    debugreg[7] = DR7_RESERVED;
    GuestDebug { control: enable | singlestep, debugreg }
}

/// The size of the shared run-state region, from what the host answered when
/// asked for it: a size only where the answer is positive.
pub fn run_state_size(answer: i32) -> (size: Option<usize>)
    ensures
        answer > 0 ==> size == Some(answer as usize),
        answer <= 0 ==> size is None,
{
    if answer > 0 {
        Some(answer as usize)
    } else {
        None
    }
}

} // verus!
