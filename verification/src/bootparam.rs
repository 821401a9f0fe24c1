//! The Linux x86 boot-protocol structure (`boot_params`, the "zero page") as a
//! byte image, with the offsets of the fields that the loader reads or writes.
//!
//! Multi-byte fields are little-endian. The image is held as bytes so that its
//! layout is exactly the one the kernel reads, whatever the host compiler
//! would make of a struct.

use vstd::prelude::*;

verus! {

/// Size of the `boot_params` structure in bytes.
pub const BOOT_PARAMS_SIZE: usize = 4096;

/// Number of entries that the E820 table inside `boot_params` can hold.
pub const E820_MAX_ENTRIES: usize = 128;

/// Size of one packed E820 entry: two 64-bit words and one 32-bit word.
pub const E820_ENTRY_SIZE: usize = 20;

/// E820 entry type: usable RAM.
pub const E820_RAM: u32 = 1;

/// E820 entry type: reserved, not usable by the kernel.
pub const E820_RESERVED: u32 = 2;

/// `loadflags` bit 0: the protected-mode code is loaded at 0x100000.
pub const LOADED_HIGH: u8 = 0x01;

/// `loadflags` bit 7: `heap_end_ptr` is valid.
pub const CAN_USE_HEAP: u8 = 0x80;

/// Offset of `ext_cmd_line_ptr` (32 bits).
pub const OFF_EXT_CMD_LINE_PTR: usize = 0x0c8;

/// Offset of `e820_entries` (8 bits).
pub const OFF_E820_ENTRIES: usize = 0x1e8;

/// Offset of `hdr.setup_sects` (8 bits).
pub const OFF_SETUP_SECTS: usize = 0x1f1;

/// Offset of `hdr.vid_mode` (16 bits).
pub const OFF_VID_MODE: usize = 0x1fa;

/// Offset of `hdr.boot_flag` (16 bits).
pub const OFF_BOOT_FLAG: usize = 0x1fe;

/// Offset of `hdr.jump` (16 bits).
pub const OFF_JUMP: usize = 0x200;

/// Offset of `hdr.header` (32 bits).
pub const OFF_HEADER: usize = 0x202;

/// Offset of `hdr.type_of_loader` (8 bits).
pub const OFF_TYPE_OF_LOADER: usize = 0x210;

/// Offset of `hdr.loadflags` (8 bits).
pub const OFF_LOADFLAGS: usize = 0x211;

/// Offset of `hdr.ramdisk_image` (32 bits).
pub const OFF_RAMDISK_IMAGE: usize = 0x218;

/// Offset of `hdr.ramdisk_size` (32 bits).
pub const OFF_RAMDISK_SIZE: usize = 0x21c;

/// Offset of `hdr.heap_end_ptr` (16 bits).
pub const OFF_HEAP_END_PTR: usize = 0x224;

/// Offset of `hdr.cmd_line_ptr` (32 bits).
pub const OFF_CMD_LINE_PTR: usize = 0x228;

/// Offset of the first entry of `e820_table`.
pub const OFF_E820_TABLE: usize = 0x2d0;

/// The little-endian 16-bit number at `at`.
pub open spec fn get_u16(s: Seq<u8>, at: int) -> int {
    s[at] + 0x100 * s[at + 1]
}

/// The little-endian 32-bit number at `at`.
pub open spec fn get_u32(s: Seq<u8>, at: int) -> int {
    s[at] + 0x100 * s[at + 1] + 0x1_0000 * s[at + 2] + 0x100_0000 * s[at + 3]
}

/// The little-endian 64-bit number at `at`.
pub open spec fn get_u64(s: Seq<u8>, at: int) -> int {
    get_u32(s, at) + 0x1_0000_0000 * get_u32(s, at + 4)
}

/// `s` with the 16-bit number `v` stored little-endian at `at`.
pub open spec fn put_u16(s: Seq<u8>, at: int, v: u16) -> Seq<u8> {
    s.update(at, (v % 0x100) as u8).update(at + 1, (v / 0x100) as u8)
}

/// `s` with the 32-bit number `v` stored little-endian at `at`.
pub open spec fn put_u32(s: Seq<u8>, at: int, v: u32) -> Seq<u8> {
    s.update(at, (v % 0x100) as u8).update(at + 1, (v / 0x100 % 0x100) as u8).update(
        at + 2,
        (v / 0x1_0000 % 0x100) as u8,
    ).update(at + 3, (v / 0x100_0000) as u8)
}

/// `s` with the 64-bit number `v` stored little-endian at `at`.
pub open spec fn put_u64(s: Seq<u8>, at: int, v: u64) -> Seq<u8> {
    put_u32(
        put_u32(s, at, (v % 0x1_0000_0000) as u32),
        at + 4,
        (v / 0x1_0000_0000) as u32,
    )
}

/// Storing a 16-bit number keeps the length, changes no byte outside its two
/// and reads back as the number stored.
pub proof fn lemma_put_u16(s: Seq<u8>, at: int, v: u16)
    requires
        0 <= at,
        at + 2 <= s.len(),
    ensures
        put_u16(s, at, v).len() == s.len(),
        get_u16(put_u16(s, at, v), at) == v,
        forall|k: int| 0 <= k < s.len() && !(at <= k < at + 2) ==> put_u16(s, at, v)[k] == s[k],
{
}

/// Storing a 32-bit number keeps the length, changes no byte outside its four
/// and reads back as the number stored.
pub proof fn lemma_put_u32(s: Seq<u8>, at: int, v: u32)
    requires
        0 <= at,
        at + 4 <= s.len(),
    ensures
        put_u32(s, at, v).len() == s.len(),
        get_u32(put_u32(s, at, v), at) == v,
        forall|k: int| 0 <= k < s.len() && !(at <= k < at + 4) ==> put_u32(s, at, v)[k] == s[k],
{
}

/// Storing a 64-bit number keeps the length, changes no byte outside its
/// eight and reads back as the number stored.
pub proof fn lemma_put_u64(s: Seq<u8>, at: int, v: u64)
    requires
        0 <= at,
        at + 8 <= s.len(),
    ensures
        put_u64(s, at, v).len() == s.len(),
        get_u64(put_u64(s, at, v), at) == v,
        forall|k: int| 0 <= k < s.len() && !(at <= k < at + 8) ==> put_u64(s, at, v)[k] == s[k],
{
    let lo = (v % 0x1_0000_0000) as u32;
    let hi = (v / 0x1_0000_0000) as u32;
    let s1 = put_u32(s, at, lo);
    lemma_put_u32(s, at, lo);
    lemma_put_u32(s1, at + 4, hi);
}

/// One entry of the E820 memory map: a physical range and what it holds.
#[derive(Clone, Copy, Debug, PartialEq, Eq)]
pub struct E820Entry {
    pub addr: u64,
    pub size: u64,
    pub type_: u32,
}

/// Offset of entry `i` of the E820 table.
pub open spec fn e820_entry_offset(i: int) -> int {
    OFF_E820_TABLE as int + E820_ENTRY_SIZE as int * i
}

/// The E820 entry that the table of `s` holds at index `i`.
pub open spec fn e820_entry_at(s: Seq<u8>, i: int) -> E820Entry {
    let at = e820_entry_offset(i);
    E820Entry {
        addr: get_u64(s, at) as u64,
        size: get_u64(s, at + 8) as u64,
        type_: get_u32(s, at + 16) as u32,
    }
}

/// `s` with `entry` stored at index `i` of the E820 table.
pub open spec fn put_e820_entry(s: Seq<u8>, i: int, entry: E820Entry) -> Seq<u8> {
    let at = e820_entry_offset(i);
    put_u32(put_u64(put_u64(s, at, entry.addr), at + 8, entry.size), at + 16, entry.type_)
}

/// Storing an E820 entry keeps the length, changes no byte outside the
/// entry's twenty and reads back as the entry stored.
pub proof fn lemma_put_e820_entry(s: Seq<u8>, i: int, entry: E820Entry)
    requires
        0 <= i,
        e820_entry_offset(i) + E820_ENTRY_SIZE <= s.len(),
    ensures
        put_e820_entry(s, i, entry).len() == s.len(),
        e820_entry_at(put_e820_entry(s, i, entry), i) == entry,
        forall|k: int|
            0 <= k < s.len() && !(e820_entry_offset(i) <= k < e820_entry_offset(i)
                + E820_ENTRY_SIZE) ==> put_e820_entry(s, i, entry)[k] == s[k],
{
    let at = e820_entry_offset(i);
    let s1 = put_u64(s, at, entry.addr);
    let s2 = put_u64(s1, at + 8, entry.size);
    lemma_put_u64(s, at, entry.addr);
    lemma_put_u64(s1, at + 8, entry.size);
    lemma_put_u32(s2, at + 16, entry.type_);
}

/// A `boot_params` image: the 4096 bytes that the kernel finds at the address
/// passed in `rsi`.
#[derive(Clone, Copy, Debug, PartialEq, Eq)]
pub struct BootParams {
    pub bytes: [u8; 4096],
}

impl View for BootParams {
    type V = Seq<u8>;

    open spec fn view(&self) -> Seq<u8> {
        self.bytes@
    }
}

impl BootParams {
    /// Returns the image with every byte zero.
    pub fn zeroed() -> (params: BootParams)
        ensures
            params@.len() == BOOT_PARAMS_SIZE,
            forall|k: int| 0 <= k < BOOT_PARAMS_SIZE ==> params@[k] == 0,
    {
        BootParams { bytes: [0u8; 4096] }
    }

    /// Reads the byte at `at`.
    pub fn read_u8(&self, at: usize) -> (v: u8)
        requires
            at < BOOT_PARAMS_SIZE,
        ensures
            v == self@[at as int],
    {
        self.bytes[at]
    }

    /// Reads the little-endian 16-bit number at `at`.
    pub fn read_u16(&self, at: usize) -> (v: u16)
        requires
            at + 2 <= BOOT_PARAMS_SIZE,
        ensures
            v == get_u16(self@, at as int),
    {
        let b0: u16 = self.bytes[at] as u16;
        let b1: u16 = self.bytes[at + 1] as u16;
        b0 + 0x100 * b1
    }

    /// Reads the little-endian 32-bit number at `at`.
    pub fn read_u32(&self, at: usize) -> (v: u32)
        requires
            at + 4 <= BOOT_PARAMS_SIZE,
        ensures
            v == get_u32(self@, at as int),
    {
        let b0: u32 = self.bytes[at] as u32;
        let b1: u32 = self.bytes[at + 1] as u32;
        let b2: u32 = self.bytes[at + 2] as u32;
        let b3: u32 = self.bytes[at + 3] as u32;
        b0 + 0x100 * b1 + 0x1_0000 * b2 + 0x100_0000 * b3
    }

    /// Reads the little-endian 64-bit number at `at`.
    pub fn read_u64(&self, at: usize) -> (v: u64)
        requires
            at + 8 <= BOOT_PARAMS_SIZE,
        ensures
            v == get_u64(self@, at as int),
    {
        let lo: u64 = self.read_u32(at) as u64;
        let hi: u64 = self.read_u32(at + 4) as u64;
        lo + 0x1_0000_0000 * hi
    }

    /// Stores the byte `v` at `at`.
    pub fn write_u8(&mut self, at: usize, v: u8)
        requires
            at < BOOT_PARAMS_SIZE,
        ensures
            final(self)@ == old(self)@.update(at as int, v),
    {
        self.bytes[at] = v;
    }

    /// Stores `v` little-endian in the two bytes at `at`.
    pub fn write_u16(&mut self, at: usize, v: u16)
        requires
            at + 2 <= BOOT_PARAMS_SIZE,
        ensures
            final(self)@ == put_u16(old(self)@, at as int, v),
    {
        self.bytes[at] = (v % 0x100) as u8;
        self.bytes[at + 1] = (v / 0x100) as u8;
    }

    /// Stores `v` little-endian in the four bytes at `at`.
    pub fn write_u32(&mut self, at: usize, v: u32)
        requires
            at + 4 <= BOOT_PARAMS_SIZE,
        ensures
            final(self)@ == put_u32(old(self)@, at as int, v),
    {
        self.bytes[at] = (v % 0x100) as u8;
        self.bytes[at + 1] = (v / 0x100 % 0x100) as u8;
        self.bytes[at + 2] = (v / 0x1_0000 % 0x100) as u8;
        self.bytes[at + 3] = (v / 0x100_0000) as u8;
    }

    /// Stores `v` little-endian in the eight bytes at `at`.
    pub fn write_u64(&mut self, at: usize, v: u64)
        requires
            at + 8 <= BOOT_PARAMS_SIZE,
        ensures
            final(self)@ == put_u64(old(self)@, at as int, v),
    {
        self.write_u32(at, (v % 0x1_0000_0000) as u32);
        self.write_u32(at + 4, (v / 0x1_0000_0000) as u32);
    }

    /// Reads entry `i` of the E820 table.
    pub fn e820_entry(&self, i: usize) -> (entry: E820Entry)
        requires
            i < E820_MAX_ENTRIES,
        ensures
            entry == e820_entry_at(self@, i as int),
    {
        let at: usize = OFF_E820_TABLE + E820_ENTRY_SIZE * i;
        E820Entry {
            addr: self.read_u64(at),
            size: self.read_u64(at + 8),
            type_: self.read_u32(at + 16),
        }
    }

    /// Stores `entry` at index `i` of the E820 table.
    pub fn set_e820_entry(&mut self, i: usize, entry: E820Entry)
        requires
            i < E820_MAX_ENTRIES,
        ensures
            final(self)@ == put_e820_entry(old(self)@, i as int, entry),
    {
        let at: usize = OFF_E820_TABLE + E820_ENTRY_SIZE * i;
        self.write_u64(at, entry.addr);
        self.write_u64(at + 8, entry.size);
        self.write_u32(at + 16, entry.type_);
    }
}

} // verus!
