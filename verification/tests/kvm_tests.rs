use kvm_bindings::{
    kvm_regs, kvm_segment, kvm_sregs, kvm_userspace_memory_region, KVM_CAP_X86_TRIPLE_FAULT_EVENT,
    KVM_EXIT_DEBUG, KVM_EXIT_HLT, KVM_EXIT_IO, KVM_EXIT_IO_IN, KVM_EXIT_IO_OUT,
    KVM_EXIT_SHUTDOWN, KVM_GUESTDBG_ENABLE, KVM_GUESTDBG_SINGLESTEP,
};
use vmm::kvm::{
    debug_request, decode_exit, is_port_io, run_state_size, user_memory_region, GuestDebug, IoDirection,
    MemoryRegion, VmExit, CAP_TRIPLE_FAULT_EVENT, EXIT_DEBUG, EXIT_HLT, EXIT_IO,
    GUESTDBG_ENABLE, GUESTDBG_SINGLESTEP, IDENTITY_MAP_ADDR, IO_IN, TSS_ADDR,
};
use vmm::linux_loader::code_segment;
use vmm::util::{setup_regs, setup_sregs};

#[test]
fn exit_codes_are_those_of_the_bindings() {
    assert_eq!(EXIT_IO, KVM_EXIT_IO);
    assert_eq!(EXIT_DEBUG, KVM_EXIT_DEBUG);
    assert_eq!(EXIT_HLT, KVM_EXIT_HLT);
    assert_eq!(IO_IN as u32, KVM_EXIT_IO_IN);
    assert_eq!(GUESTDBG_ENABLE, KVM_GUESTDBG_ENABLE);
    assert_eq!(GUESTDBG_SINGLESTEP, KVM_GUESTDBG_SINGLESTEP);
    assert_eq!(CAP_TRIPLE_FAULT_EVENT, KVM_CAP_X86_TRIPLE_FAULT_EVENT);
}

#[test]
fn only_port_io_has_io_fields() {
    assert!(is_port_io(2));
    assert!(is_port_io(KVM_EXIT_IO));
    assert!(!is_port_io(0));
    assert!(!is_port_io(4));
    assert!(!is_port_io(5));
    assert!(!is_port_io(6));
}

#[test]
fn halt_is_decoded() {
    assert_eq!(decode_exit(5, 0, 0, 0), VmExit::Hlt);
    assert_eq!(decode_exit(KVM_EXIT_HLT, 1, 0x3f8, b'A'), VmExit::Hlt);
}

#[test]
fn debug_is_decoded() {
    assert_eq!(decode_exit(4, 0, 0, 0), VmExit::Debug);
    assert_eq!(decode_exit(KVM_EXIT_DEBUG, 1, 0x3f8, b'A'), VmExit::Debug);
}

#[test]
fn port_write_is_decoded() {
    assert_eq!(
        decode_exit(2, KVM_EXIT_IO_OUT as u8, 0x3f8, b'A'),
        VmExit::Io { direction: IoDirection::Out, port: 0x3f8, byte: b'A' }
    );
}

#[test]
fn port_read_is_decoded() {
    assert_eq!(
        decode_exit(KVM_EXIT_IO, KVM_EXIT_IO_IN as u8, 0x3fd, 0),
        VmExit::Io { direction: IoDirection::In, port: 0x3fd, byte: 0 }
    );
}

#[test]
fn any_nonzero_direction_is_a_write() {
    assert_eq!(
        decode_exit(2, 0xFF, 0x80, 7),
        VmExit::Io { direction: IoDirection::Out, port: 0x80, byte: 7 }
    );
}

#[test]
fn other_reasons_keep_their_code() {
    assert_eq!(decode_exit(0, 0, 0, 0), VmExit::Other(0));
    assert_eq!(decode_exit(KVM_EXIT_SHUTDOWN, 0, 0, 0), VmExit::Other(8));
    assert_eq!(decode_exit(3, 1, 2, 3), VmExit::Other(3));
    assert_eq!(decode_exit(6, 0, 0, 0), VmExit::Other(6));
    assert_eq!(decode_exit(u32::MAX, 0, 0, 0), VmExit::Other(u32::MAX));
}

#[test]
fn single_step_request() {
    let debug: GuestDebug = debug_request();
    assert_eq!(debug.control, 3);
    assert_eq!(debug.control, KVM_GUESTDBG_ENABLE | KVM_GUESTDBG_SINGLESTEP);
    assert_eq!(debug.debugreg, [0, 0, 0, 0, 0, 0, 0, 0x400]);
}

#[test]
fn slot_zero_region() {
    let region: MemoryRegion = user_memory_region(0, 1 << 30, 0x7f00_0000_0000);
    assert_eq!(
        region,
        MemoryRegion {
            slot: 0,
            flags: 0,
            guest_phys_addr: 0,
            memory_size: 1 << 30,
            userspace_addr: 0x7f00_0000_0000,
        }
    );
    let host = kvm_userspace_memory_region {
        slot: region.slot,
        flags: region.flags,
        guest_phys_addr: region.guest_phys_addr,
        memory_size: region.memory_size,
        userspace_addr: region.userspace_addr,
    };
    assert_eq!(host.slot, 0);
    assert_eq!(host.memory_size, 0x4000_0000);
}

#[test]
fn run_state_size_must_be_positive() {
    assert_eq!(run_state_size(0), None);
    assert_eq!(run_state_size(-1), None);
    assert_eq!(run_state_size(i32::MIN), None);
    assert_eq!(run_state_size(1), Some(1));
    assert_eq!(run_state_size(12288), Some(12288));
    assert_eq!(run_state_size(i32::MAX), Some(0x7FFF_FFFF));
}

#[test]
fn fixed_host_addresses() {
    assert_eq!(IDENTITY_MAP_ADDR, 0xFFFFC000);
    assert_eq!(TSS_ADDR, 0xFFFFD000);
    assert_eq!(TSS_ADDR - IDENTITY_MAP_ADDR, 0x1000);
}

#[test]
fn register_images_have_the_bindings_fields() {
    let cs = code_segment();
    let host = kvm_segment {
        base: cs.base,
        limit: cs.limit,
        selector: cs.selector,
        type_: cs.type_,
        present: cs.present,
        dpl: cs.dpl,
        db: cs.db,
        s: cs.s,
        l: cs.l,
        g: cs.g,
        avl: cs.avl,
        unusable: cs.unusable,
        padding: 0,
    };
    assert_eq!(host.selector, 0x10);
    let sregs = setup_sregs();
    let host = kvm_sregs {
        cr0: sregs.cr0,
        cr3: sregs.cr3,
        cr4: sregs.cr4,
        efer: sregs.efer,
        interrupt_bitmap: sregs.interrupt_bitmap,
        ..Default::default()
    };
    assert_eq!(host.cr0, 0x8000_0001);
    assert_eq!(host.tr, kvm_segment::default());
    assert_eq!(sregs.cr2, kvm_sregs::default().cr2);
    let regs = setup_regs(1, 2);
    let host = kvm_regs { rip: regs.rip, rsi: regs.rsi, rflags: regs.rflags, ..Default::default() };
    assert_eq!((host.rip, host.rsi, host.rflags, host.rax), (1, 2, 2, regs.rax));
}
