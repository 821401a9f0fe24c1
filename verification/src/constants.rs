//! Named bit positions and fixed addresses used while preparing the guest.

use vstd::prelude::*;

verus! {

/// Guest-physical address of the Page Map Level 4 table.
pub const PML4: usize = 0x1000;

/// Guest-physical address of the Page Directory Pointer table.
pub const PDPT: usize = 0x2000;

/// Guest-physical address of the Page Directory.
pub const PD: usize = 0x3000;

/// Page flag, bit 0: the page is present in physical memory.
pub const PAGE_PRESENT: u64 = 0x1;

/// Page flag, bit 1: the page is writable.
pub const PAGE_READ_WRITE: u64 = 0x2;

/// Page flag, bit 7: the directory entry maps a large page.
pub const PAGE_SIZE: u64 = 0x80;

/// CR0, bit 0: protected mode enable.
pub const CR0_PE: u64 = 0x1;

/// CR0, bit 31: paging enable.
pub const CR0_PG: u64 = 0x8000_0000;

/// CR4, bit 4: page size extension.
pub const CR4_PSE: u64 = 0x10;

/// CR4, bit 5: physical address extension.
pub const CR4_PAE: u64 = 0x20;

/// EFER, bit 8: long mode enable.
pub const EFER_LME: u64 = 0x100;

/// EFER, bit 10: long mode active.
pub const EFER_LMA: u64 = 0x400;

/// Segment type, bit 1 of a code segment: readable.
pub const SEGMENT_CODE_READ: u8 = 0x2;

/// Segment type, bit 3: the segment holds code.
pub const SEGMENT_CODE: u8 = 0x8;

/// Segment type, bit 1 of a data segment: writable.
pub const SEGMENT_DATA_WRITE: u8 = 0x2;

} // verus!
