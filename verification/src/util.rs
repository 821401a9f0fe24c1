//! Descriptor packing and the preparation of guest memory and of the initial
//! register images.

use crate::constants::{
    CR0_PE, CR0_PG, CR4_PAE, EFER_LMA, EFER_LME, PAGE_PRESENT, PAGE_READ_WRITE, PAGE_SIZE, PD,
    PDPT, PML4,
};
use crate::linux_loader::{code_segment, data_segment, spec_code_segment, spec_data_segment};
use crate::regs::{DescriptorTable, Regs, Segment, Sregs};
use vstd::arithmetic::div_mod::lemma_fundamental_div_mod_converse;
use vstd::prelude::*;

verus! {

/// The 64-bit GDT entry that encodes `seg`.
///
/// From the low bit up: 16 bits of limit, 24 bits of base, the type (4 bits),
/// `s`, the privilege level (2 bits), `present`, 4 more bits of limit, `avl`,
/// `l`, `db`, `g`, and the top 8 bits of base. An attribute wider than its
/// place is cut to the width of the place.
pub open spec fn descriptor(seg: Segment) -> int {
    seg.limit % 0x1_0000
        + (seg.base % 0x100_0000) * 0x1_0000
        + (seg.type_ % 16) * 0x100_0000_0000
        + (seg.s % 2) * 0x1000_0000_0000
        + (seg.dpl % 4) * 0x2000_0000_0000
        + (seg.present % 2) * 0x8000_0000_0000
        + (seg.limit / 0x1_0000 % 16) * 0x1_0000_0000_0000
        + (seg.avl % 2) * 0x10_0000_0000_0000
        + (seg.l % 2) * 0x20_0000_0000_0000
        + (seg.db % 2) * 0x40_0000_0000_0000
        + (seg.g % 2) * 0x80_0000_0000_0000
        + (seg.base / 0x100_0000 % 0x100) * 0x100_0000_0000_0000
}

/// Packs a segment into the 64-bit entry that the GDT holds for it.
///
/// Segments are not relocated here: the base must be zero.
pub fn pack_segment(segment: &Segment) -> (packed: u64)
    requires
        segment.base == 0,
    ensures
        packed == descriptor(*segment),
{
    let type_: u64 = segment.type_ as u64;
    let s: u64 = segment.s as u64;
    let dpl: u64 = segment.dpl as u64;
    let present: u64 = segment.present as u64;
    let avl: u64 = segment.avl as u64;
    let l: u64 = segment.l as u64;
    let db: u64 = segment.db as u64;
    let g: u64 = segment.g as u64;
    let limit: u64 = segment.limit as u64;

    // Bits 40 (type) to 47 (present).
    let lo_flags: u64 = (type_ & 0xF) | ((s & 1) << 4) | ((dpl & 3) << 5) | ((present & 1) << 7);
    // Bits 52 (avl) to 55 (granularity).
    let hi_flags: u64 = (avl & 1) | ((l & 1) << 1) | ((db & 1) << 2) | ((g & 1) << 3);
    let limit_lo: u64 = limit & 0xFFFF;
    let limit_hi: u64 = (limit >> 16) & 0xF;
    let packed: u64 = limit_lo | (lo_flags << 40) | (limit_hi << 48) | (hi_flags << 52);

    assert(packed == limit % 0x1_0000
        + (type_ % 16) * 0x100_0000_0000
        + (s % 2) * 0x1000_0000_0000
        + (dpl % 4) * 0x2000_0000_0000
        + (present % 2) * 0x8000_0000_0000
        + (limit / 0x1_0000 % 16) * 0x1_0000_0000_0000
        + (avl % 2) * 0x10_0000_0000_0000
        + (l % 2) * 0x20_0000_0000_0000
        + (db % 2) * 0x40_0000_0000_0000
        + (g % 2) * 0x80_0000_0000_0000) by (bit_vector)
        requires
            lo_flags == (type_ & 0xF) | ((s & 1) << 4) | ((dpl & 3) << 5) | ((present & 1) << 7),
            hi_flags == (avl & 1) | ((l & 1) << 1) | ((db & 1) << 2) | ((g & 1) << 3),
            limit_lo == limit & 0xFFFF,
            limit_hi == (limit >> 16) & 0xF,
            packed == limit_lo | (lo_flags << 40) | (limit_hi << 48) | (hi_flags << 52),
            type_ < 0x100,
            s < 0x100,
            dpl < 0x100,
            present < 0x100,
            avl < 0x100,
            l < 0x100,
            db < 0x100,
            g < 0x100,
            limit < 0x1_0000_0000,
    ;
    packed
}

/// The low twenty bits of the limit can be read back from a descriptor: the
/// low sixteen from its bits 0 to 15, the next four from its bits 48 to 51.
pub proof fn lemma_descriptor_holds_limit(seg: Segment)
    requires
        seg.base == 0,
    ensures
        0 <= descriptor(seg) <= u64::MAX,
        descriptor(seg) % 0x1_0000 + (descriptor(seg) / 0x1_0000_0000_0000 % 16) * 0x1_0000
            == seg.limit % 0x10_0000,
        ({
            let packed = descriptor(seg) as u64;
            (packed & 0xFFFF) | (((packed >> 48) & 0xF) << 16) == (seg.limit as u64) & 0xF_FFFF
        }),
{
    let total = descriptor(seg);
    let low = (seg.limit % 0x1_0000) as int;
    let high = (seg.limit / 0x1_0000 % 16) as int;
    let access = (seg.type_ % 16) + (seg.s % 2) * 0x10 + (seg.dpl % 4) * 0x20 + (seg.present % 2)
        * 0x80;
    let flags = (seg.avl % 2) + (seg.l % 2) * 2 + (seg.db % 2) * 4 + (seg.g % 2) * 8;
    let below = low + access * 0x100_0000_0000;
    lemma_fundamental_div_mod_converse(
        total,
        0x1_0000,
        access * 0x100_0000 + high * 0x1_0000_0000 + flags * 0x10_0000_0000,
        low,
    );
    lemma_fundamental_div_mod_converse(total, 0x1_0000_0000_0000, high + flags * 16, below);
    lemma_fundamental_div_mod_converse(high + flags * 16, 16, flags, high);

    let packed = total as u64;
    let limit = seg.limit as u64;
    let low = low as u64;
    let high = high as u64;
    assert((packed & 0xFFFF) | (((packed >> 48) & 0xF) << 16) == limit & 0xF_FFFF) by (bit_vector)
        requires
            packed % 0x1_0000 == low,
            packed / 0x1_0000_0000_0000 % 16 == high,
            low == limit % 0x1_0000,
            high == limit / 0x1_0000 % 16,
    ;
}

/// Every attribute of a well-formed segment can be read back from its place
/// in the descriptor.
pub proof fn lemma_descriptor_holds_attributes(seg: Segment)
    requires
        seg.base == 0,
        seg.well_formed(),
    ensures
        descriptor(seg) / 0x100_0000_0000 % 16 == seg.type_,
        descriptor(seg) / 0x1000_0000_0000 % 2 == seg.s,
        descriptor(seg) / 0x2000_0000_0000 % 4 == seg.dpl,
        descriptor(seg) / 0x8000_0000_0000 % 2 == seg.present,
        descriptor(seg) / 0x10_0000_0000_0000 % 2 == seg.avl,
        descriptor(seg) / 0x20_0000_0000_0000 % 2 == seg.l,
        descriptor(seg) / 0x40_0000_0000_0000 % 2 == seg.db,
        descriptor(seg) / 0x80_0000_0000_0000 % 2 == seg.g,
{
    let total = descriptor(seg);
    let low = (seg.limit % 0x1_0000) as int;
    let high = (seg.limit / 0x1_0000 % 16) as int;
    let t = seg.type_ as int;
    let s = seg.s as int;
    let dpl = seg.dpl as int;
    let p = seg.present as int;
    let avl = seg.avl as int;
    let l = seg.l as int;
    let db = seg.db as int;
    let g = seg.g as int;

    let above_type = s + dpl * 2 + p * 8 + high * 0x10 + avl * 0x100 + l * 0x200 + db * 0x400 + g
        * 0x800;
    lemma_fundamental_div_mod_converse(total, 0x100_0000_0000, t + above_type * 16, low);
    lemma_fundamental_div_mod_converse(t + above_type * 16, 16, above_type, t);

    let above_s = dpl + p * 4 + high * 8 + avl * 0x80 + l * 0x100 + db * 0x200 + g * 0x400;
    lemma_fundamental_div_mod_converse(
        total,
        0x1000_0000_0000,
        s + above_s * 2,
        low + t * 0x100_0000_0000,
    );
    lemma_fundamental_div_mod_converse(s + above_s * 2, 2, above_s, s);

    let above_dpl = p + high * 2 + avl * 0x20 + l * 0x40 + db * 0x80 + g * 0x100;
    lemma_fundamental_div_mod_converse(
        total,
        0x2000_0000_0000,
        dpl + above_dpl * 4,
        low + (t + s * 0x10) * 0x100_0000_0000,
    );
    lemma_fundamental_div_mod_converse(dpl + above_dpl * 4, 4, above_dpl, dpl);

    let above_p = high + avl * 0x10 + l * 0x20 + db * 0x40 + g * 0x80;
    lemma_fundamental_div_mod_converse(
        total,
        0x8000_0000_0000,
        p + above_p * 2,
        low + (t + s * 0x10 + dpl * 0x20) * 0x100_0000_0000,
    );
    lemma_fundamental_div_mod_converse(p + above_p * 2, 2, above_p, p);

    let below_avl = low + (t + s * 0x10 + dpl * 0x20 + p * 0x80 + high * 0x100)
        * 0x100_0000_0000;
    let above_avl = l + db * 2 + g * 4;
    lemma_fundamental_div_mod_converse(
        total,
        0x10_0000_0000_0000,
        avl + above_avl * 2,
        below_avl,
    );
    lemma_fundamental_div_mod_converse(avl + above_avl * 2, 2, above_avl, avl);

    let above_l = db + g * 2;
    lemma_fundamental_div_mod_converse(
        total,
        0x20_0000_0000_0000,
        l + above_l * 2,
        below_avl + avl * 0x10_0000_0000_0000,
    );
    lemma_fundamental_div_mod_converse(l + above_l * 2, 2, above_l, l);

    lemma_fundamental_div_mod_converse(
        total,
        0x40_0000_0000_0000,
        db + g * 2,
        below_avl + (avl + l * 2) * 0x10_0000_0000_0000,
    );
    lemma_fundamental_div_mod_converse(db + g * 2, 2, g, db);

    lemma_fundamental_div_mod_converse(
        total,
        0x80_0000_0000_0000,
        g,
        below_avl + (avl + l * 2 + db * 4) * 0x10_0000_0000_0000,
    );
}

/// The descriptors of the guest's two segments, as numbers.
pub proof fn lemma_boot_descriptors()
    ensures
        descriptor(spec_code_segment()) == 0x00AF_9A00_0000_FFFF,
        descriptor(spec_data_segment()) == 0x00CF_9200_0000_FFFF,
{
}

/// Index of the code segment's entry in the GDT: selector 0x10.
pub const GDT_CODE_INDEX: usize = 2;

/// Index of the data segment's entry in the GDT: selector 0x18.
pub const GDT_DATA_INDEX: usize = 3;

/// Number of 64-bit words of guest memory that the GDT takes.
pub const GDT_WORDS: usize = 4;

/// Guest memory `memory`, as 64-bit words, with the two GDT entries written.
pub open spec fn with_gdt(memory: Seq<u64>) -> Seq<u64> {
    memory.update(GDT_CODE_INDEX as int, descriptor(spec_code_segment()) as u64).update(
        GDT_DATA_INDEX as int,
        descriptor(spec_data_segment()) as u64,
    )
}

/// Writes the GDT to the start of guest memory: the code segment at selector
/// 0x10 and the data segment at selector 0x18. No other word changes.
pub fn setup_gdt(memory: &mut [u64])
    requires
        old(memory)@.len() >= GDT_WORDS,
    ensures
        final(memory)@ == with_gdt(old(memory)@),
{
    proof {
        lemma_boot_descriptors();
    }
    memory[GDT_CODE_INDEX] = pack_segment(&code_segment());
    memory[GDT_DATA_INDEX] = pack_segment(&data_segment());
}

/// In memory whose first two words are zero, the GDT reads: null entry,
/// unused entry, code segment, data segment.
pub proof fn lemma_gdt_layout(memory: Seq<u64>)
    requires
        memory.len() >= GDT_WORDS,
        memory[0] == 0,
        memory[1] == 0,
    ensures
        with_gdt(memory).len() == memory.len(),
        with_gdt(memory)[0] == 0,
        with_gdt(memory)[1] == 0,
        with_gdt(memory)[2] == descriptor(spec_code_segment()),
        with_gdt(memory)[3] == descriptor(spec_data_segment()),
        forall|k: int| 4 <= k < memory.len() ==> with_gdt(memory)[k] == memory[k],
{
    lemma_boot_descriptors();
}

/// Size of a page-table entry in bytes.
pub const ENTRY_SIZE: usize = 8;

/// Number of entries in the page directory.
pub const PD_ENTRIES: usize = 512;

/// Number of 64-bit words of guest memory that the page tables reach.
pub const PAGING_WORDS: usize = 2048;

/// Entry `i` of the page directory: a present, writable 2 MiB page at
/// physical address `i` times 2 MiB.
pub open spec fn page_directory_entry(i: int) -> int {
    PAGE_PRESENT + PAGE_READ_WRITE + PAGE_SIZE + i * 0x20_0000
}

/// An entry that points to the next-level table at `table`, present and
/// writable.
pub open spec fn table_entry(table: int) -> int {
    PAGE_PRESENT + PAGE_READ_WRITE + table
}

/// Guest memory `memory`, as 64-bit words, with the page tables written: one
/// PML4 entry, one PDPT entry and a page directory that maps the first GiB
/// onto itself.
pub open spec fn with_paging(memory: Seq<u64>) -> Seq<u64> {
    Seq::new(
        memory.len(),
        |k: int|
            if k == PML4 / ENTRY_SIZE {
                table_entry(PDPT as int) as u64
            } else if k == PDPT / ENTRY_SIZE {
                table_entry(PD as int) as u64
            } else if PD / ENTRY_SIZE <= k < PD / ENTRY_SIZE + PD_ENTRIES {
                page_directory_entry(k - PD / ENTRY_SIZE) as u64
            } else {
                memory[k]
            },
    )
}

/// Writes identity-mapped long-mode page tables into guest memory. No word
/// outside the three tables' entries changes.
pub fn setup_paging(memory: &mut [u64])
    requires
        old(memory)@.len() >= PAGING_WORDS,
    ensures
        final(memory)@ == with_paging(old(memory)@),
{
    assert(PAGE_PRESENT | PAGE_READ_WRITE | 0x2000u64 == 0x2003u64) by (bit_vector);
    assert(PAGE_PRESENT | PAGE_READ_WRITE | 0x3000u64 == 0x3003u64) by (bit_vector);
    memory[PML4 / ENTRY_SIZE] = PAGE_PRESENT | PAGE_READ_WRITE | PDPT as u64;
    memory[PDPT / ENTRY_SIZE] = PAGE_PRESENT | PAGE_READ_WRITE | PD as u64;

    let first: usize = PD / ENTRY_SIZE;
    let mut n: usize = 0;
    while n < PD_ENTRIES
        invariant
            n <= PD_ENTRIES,
            first == PD / ENTRY_SIZE,
            memory@.len() == old(memory)@.len(),
            memory@.len() >= PAGING_WORDS,
            memory@[PML4 as int / ENTRY_SIZE as int] == table_entry(PDPT as int),
            memory@[PDPT as int / ENTRY_SIZE as int] == table_entry(PD as int),
            forall|i: int| 0 <= i < n ==> memory@[first + i] == page_directory_entry(i),
            forall|k: int|
                0 <= k < memory@.len() && k != PML4 / ENTRY_SIZE && k != PDPT / ENTRY_SIZE && !(
                first <= k < first + n) ==> memory@[k] == old(memory)@[k],
        decreases PD_ENTRIES - n,
    {
        let index: u64 = n as u64;
        assert(PAGE_PRESENT | PAGE_READ_WRITE | PAGE_SIZE | (index << 21) == 0x83 + index
            * 0x20_0000) by (bit_vector)
            requires
                index < 512,
        ;
        memory[first + n] = PAGE_PRESENT | PAGE_READ_WRITE | PAGE_SIZE | (index << 21);
        n += 1;
    }
}

/// What the page tables hold, bit by bit: the PML4 entry points to the PDPT,
/// the PDPT entry to the page directory, and entry `i` of the directory is
/// present, writable, large, and maps the 2 MiB at `i << 21`.
pub proof fn lemma_paging_layout(memory: Seq<u64>)
    requires
        memory.len() >= PAGING_WORDS,
    ensures
        with_paging(memory).len() == memory.len(),
        with_paging(memory)[PML4 as int / 8] & !0xFFFu64 == PDPT,
        with_paging(memory)[PDPT as int / 8] & !0xFFFu64 == PD,
        with_paging(memory)[PML4 as int / 8] & 0xFFFu64 == PAGE_PRESENT | PAGE_READ_WRITE,
        with_paging(memory)[PDPT as int / 8] & 0xFFFu64 == PAGE_PRESENT | PAGE_READ_WRITE,
        forall|i: u64|
            i < 512 ==> #[trigger] with_paging(memory)[PD as int / 8 + i] == PAGE_PRESENT
                | PAGE_READ_WRITE | PAGE_SIZE | (i << 21),
{
    assert(0x2003u64 & !0xFFFu64 == 0x2000u64) by (bit_vector);
    assert(0x3003u64 & !0xFFFu64 == 0x3000u64) by (bit_vector);
    assert(0x2003u64 & 0xFFFu64 == 0x1u64 | 0x2u64) by (bit_vector);
    assert(0x3003u64 & 0xFFFu64 == 0x1u64 | 0x2u64) by (bit_vector);
    assert forall|i: u64| i < 512 implies #[trigger] with_paging(memory)[PD as int / 8 + i]
        == PAGE_PRESENT | PAGE_READ_WRITE | PAGE_SIZE | (i << 21) by {
        assert(0x1u64 | 0x2u64 | 0x80u64 | (i << 21) == 0x83 + i * 0x20_0000) by (bit_vector)
            requires
                i < 512,
        ;
    }
}

/// `sregs` is the segment-register image that a guest entered in long mode
/// starts with: paging through the PML4, PAE, protected mode with paging,
/// long mode enabled and active, the GDT at address zero, `cs` the code
/// segment, the other five segment registers the data segment, and
/// everything else zero.
pub open spec fn is_boot_sregs(sregs: Sregs) -> bool {
    &&& sregs.cs == spec_code_segment()
    &&& sregs.ds == spec_data_segment()
    &&& sregs.es == spec_data_segment()
    &&& sregs.fs == spec_data_segment()
    &&& sregs.gs == spec_data_segment()
    &&& sregs.ss == spec_data_segment()
    &&& sregs.tr == Segment::spec_zero()
    &&& sregs.ldt == Segment::spec_zero()
    &&& sregs.gdt == (DescriptorTable { base: 0, limit: 0 })
    &&& sregs.idt == (DescriptorTable { base: 0, limit: 0 })
    &&& sregs.cr0 == CR0_PE + CR0_PG
    &&& sregs.cr2 == 0
    &&& sregs.cr3 == PML4
    &&& sregs.cr4 == CR4_PAE
    &&& sregs.cr8 == 0
    &&& sregs.efer == EFER_LMA + EFER_LME
    &&& sregs.apic_base == 0
    &&& sregs.interrupt_bitmap@ == seq![0u64, 0u64, 0u64, 0u64]
}

/// Returns the segment and control registers that go with the GDT and the
/// page tables written by `setup_gdt` and `setup_paging`.
pub fn setup_sregs() -> (sregs: Sregs)
    ensures
        is_boot_sregs(sregs),
{
    assert(CR0_PE | CR0_PG == 0x8000_0001u64) by (bit_vector);
    assert(EFER_LMA | EFER_LME == 0x500u64) by (bit_vector);
    let sregs = Sregs {
        cs: code_segment(),
        ds: data_segment(),
        es: data_segment(),
        fs: data_segment(),
        gs: data_segment(),
        ss: data_segment(),
        tr: Segment::zero(),
        ldt: Segment::zero(),
        // The GDT starts at address zero; its limit is not needed.
        gdt: DescriptorTable { base: 0, limit: 0 },
        idt: DescriptorTable { base: 0, limit: 0 },
        cr0: CR0_PE | CR0_PG,
        cr2: 0,
        cr3: PML4 as u64,
        cr4: CR4_PAE,
        cr8: 0,
        efer: EFER_LMA | EFER_LME,
        apic_base: 0,
        interrupt_bitmap: [0u64; 4],
    };
    assert(sregs.interrupt_bitmap@ =~= seq![0u64, 0u64, 0u64, 0u64]);
    sregs
}

/// Value of `rflags` at entry: only bit 1, which is always set; interrupts
/// are off.
pub const RFLAGS_RESERVED: u64 = 0x2;

/// The general-purpose registers at entry: `rip` at the 64-bit entry point,
/// `rsi` at `boot_params`, `rflags` with its reserved bit, all others zero.
pub open spec fn boot_regs(code64_start: u64, boot_params_addr: u64) -> Regs {
    Regs {
        rax: 0,
        rbx: 0,
        rcx: 0,
        rdx: 0,
        rsi: boot_params_addr,
        rdi: 0,
        rsp: 0,
        rbp: 0,
        r8: 0,
        r9: 0,
        r10: 0,
        r11: 0,
        r12: 0,
        r13: 0,
        r14: 0,
        r15: 0,
        rip: code64_start,
        rflags: RFLAGS_RESERVED,
    }
}

/// Returns the general-purpose registers that the boot protocol asks for at
/// the 64-bit entry point.
pub fn setup_regs(code64_start: u64, boot_params_addr: u64) -> (regs: Regs)
    ensures
        regs == boot_regs(code64_start, boot_params_addr),
{
    Regs {
        rax: 0,
        rbx: 0,
        rcx: 0,
        rdx: 0,
        rsi: boot_params_addr,
        rdi: 0,
        rsp: 0,
        rbp: 0,
        r8: 0,
        r9: 0,
        r10: 0,
        r11: 0,
        r12: 0,
        r13: 0,
        r14: 0,
        r15: 0,
        rip: code64_start,
        rflags: RFLAGS_RESERVED,
    }
}

/// A value together with the action that releases it.
///
/// The value can be read and changed while the wrapper lives. `release`
/// takes the wrapper apart and hands the value, as it is then, to the
/// action: the action runs once, and cannot run again.
pub struct WrappedAutoFree<T, F: FnOnce(T)> {
    val: T,
    cleanup: F,
}

impl<T, F: FnOnce(T)> WrappedAutoFree<T, F> {
    /// The wrapped value.
    pub closed spec fn value(&self) -> T {
        self.val
    }

    /// The action that releases the value.
    pub closed spec fn action(&self) -> F {
        self.cleanup
    }

    /// Wraps `val` with the action that will release it.
    pub fn new(val: T, cleanup: F) -> (wrapped: Self)
        ensures
            wrapped.value() == val,
            wrapped.action() == cleanup,
    {
        Self { val, cleanup }
    }

    /// Gives write access to the value. The action stays the same.
    pub fn deref_mut(&mut self) -> (val: &mut T)
        ensures
            *val == old(self).value(),
            final(self).value() == *final(val),
            final(self).action() == old(self).action(),
    {
        &mut self.val
    }

    /// Runs the release action on the value as it is now.
    pub fn release(self)
        requires
            call_requires(self.action(), (self.value(),)),
        ensures
            call_ensures(self.action(), (self.value(),), ()),
    {
        let WrappedAutoFree { val, cleanup } = self;
        cleanup(val)
    }
}

impl<T, F: FnOnce(T)> core::ops::Deref for WrappedAutoFree<T, F> {
    type Target = T;

    /// Gives read access to the value.
    fn deref(&self) -> (val: &T)
        ensures
            *val == self.value(),
    {
        &self.val
    }
}

} // verus!
