//! Register images handed to the vCPU: plain values, one field per
//! architectural register or descriptor attribute.

use vstd::prelude::*;

verus! {

/// A segment descriptor in semantic form.
///
/// The attribute fields hold small numbers: `type_` is four bits wide, `dpl`
/// two, and `s`, `present`, `avl`, `l`, `db`, `g` and `unusable` one each.
#[derive(Clone, Copy, Debug, PartialEq, Eq)]
pub struct Segment {
    pub base: u64,
    pub limit: u32,
    pub selector: u16,
    pub type_: u8,
    pub present: u8,
    pub dpl: u8,
    pub db: u8,
    pub s: u8,
    pub l: u8,
    pub g: u8,
    pub avl: u8,
    pub unusable: u8,
}

impl Segment {
    /// Every attribute fits the width that a descriptor gives it.
    pub open spec fn well_formed(self) -> bool {
        &&& self.type_ < 16
        &&& self.dpl < 4
        &&& self.s < 2
        &&& self.present < 2
        &&& self.avl < 2
        &&& self.l < 2
        &&& self.db < 2
        &&& self.g < 2
        &&& self.unusable < 2
    }

    /// The segment with every field zero.
    pub open spec fn spec_zero() -> Segment {
        Segment {
            base: 0,
            limit: 0,
            selector: 0,
            type_: 0,
            present: 0,
            dpl: 0,
            db: 0,
            s: 0,
            l: 0,
            g: 0,
            avl: 0,
            unusable: 0,
        }
    }

    /// Returns the segment with every field zero.
    pub fn zero() -> (seg: Segment)
        ensures
            seg == Segment::spec_zero(),
    {
        Segment {
            base: 0,
            limit: 0,
            selector: 0,
            type_: 0,
            present: 0,
            dpl: 0,
            db: 0,
            s: 0,
            l: 0,
            g: 0,
            avl: 0,
            unusable: 0,
        }
    }
}

/// Base and limit of a descriptor table (GDT or IDT).
#[derive(Clone, Copy, Debug, PartialEq, Eq)]
pub struct DescriptorTable {
    pub base: u64,
    pub limit: u16,
}

/// Segment and control registers of the vCPU.
#[derive(Clone, Copy, Debug, PartialEq, Eq)]
pub struct Sregs {
    pub cs: Segment,
    pub ds: Segment,
    pub es: Segment,
    pub fs: Segment,
    pub gs: Segment,
    pub ss: Segment,
    pub tr: Segment,
    pub ldt: Segment,
    pub gdt: DescriptorTable,
    pub idt: DescriptorTable,
    pub cr0: u64,
    pub cr2: u64,
    pub cr3: u64,
    pub cr4: u64,
    pub cr8: u64,
    pub efer: u64,
    pub apic_base: u64,
    pub interrupt_bitmap: [u64; 4],
}

/// General-purpose registers of the vCPU.
#[derive(Clone, Copy, Debug, PartialEq, Eq)]
pub struct Regs {
    pub rax: u64,
    pub rbx: u64,
    pub rcx: u64,
    pub rdx: u64,
    pub rsi: u64,
    pub rdi: u64,
    pub rsp: u64,
    pub rbp: u64,
    pub r8: u64,
    pub r9: u64,
    pub r10: u64,
    pub r11: u64,
    pub r12: u64,
    pub r13: u64,
    pub r14: u64,
    pub r15: u64,
    pub rip: u64,
    pub rflags: u64,
}

} // verus!
