//! The bzImage loader: checks the real-mode setup header of a kernel image,
//! fills in the `boot_params` that the kernel is started with, and gives out
//! the protected-mode part of the image.

use crate::bootparam::{
    e820_entry_at, get_u16, get_u32, lemma_put_e820_entry, lemma_put_u16, lemma_put_u32,
    BootParams, E820Entry, BOOT_PARAMS_SIZE, CAN_USE_HEAP, E820_ENTRY_SIZE, E820_MAX_ENTRIES,
    LOADED_HIGH, OFF_BOOT_FLAG, OFF_CMD_LINE_PTR, OFF_E820_ENTRIES, OFF_E820_TABLE,
    OFF_EXT_CMD_LINE_PTR, OFF_HEADER, OFF_HEAP_END_PTR, OFF_JUMP, OFF_LOADFLAGS,
    OFF_RAMDISK_IMAGE, OFF_RAMDISK_SIZE, OFF_SETUP_SECTS, OFF_TYPE_OF_LOADER, OFF_VID_MODE,
};
use crate::constants::{SEGMENT_CODE, SEGMENT_CODE_READ, SEGMENT_DATA_WRITE};
use crate::regs::Segment;
use vstd::prelude::*;

verus! {

/// Why an image was refused.
#[derive(Clone, Copy, Debug, PartialEq, Eq)]
pub enum LoaderError {
    /// The image is shorter than its own header says, or than `boot_params`.
    ImageTooSmall,
    /// A magic number of the setup header does not match.
    InvalidImage,
    /// The E820 map has more entries than the table in `boot_params` holds.
    TooManyEntries,
}

/// Value of `hdr.boot_flag` in every bootable image.
pub const BOOT_FLAG_MAGIC: u16 = 0xAA55;

/// Value of `hdr.header` in every image that speaks the boot protocol: "HdrS".
pub const HEADER_MAGIC: u32 = 0x53726448;

/// Operand of the jump in `hdr.jump`: where the setup header ends, counted
/// from offset 0x202.
pub const JUMP_OFFSET: u16 = 106;

/// Value written to `hdr.vid_mode`: keep the current video mode.
pub const VID_MODE_NORMAL: u16 = 0xFFFF;

/// Value written to `hdr.type_of_loader`: a loader without an assigned id.
pub const LOADER_UNDEFINED: u8 = 0xFF;

/// Value written to `hdr.heap_end_ptr`: the setup heap ends at 0xe000 - 0x200.
pub const HEAP_END: u16 = 0xDE00;

/// Number of setup sectors that an image means when it says zero.
pub const DEFAULT_SETUP_SECTS: usize = 4;

/// Size of one sector of the real-mode part.
pub const SECTOR_SIZE: usize = 512;

/// The code segment of the guest, at selector 0x10: flat, 64-bit, readable.
pub open spec fn spec_code_segment() -> Segment {
    Segment {
        base: 0,
        limit: 0xFFFF_FFFF,
        selector: 0x10,
        type_: 0xA,
        present: 1,
        dpl: 0,
        db: 0,
        s: 1,
        l: 1,
        g: 1,
        avl: 0,
        unusable: 0,
    }
}

/// The data segment of the guest, at selector 0x18: flat, 32-bit, writable.
pub open spec fn spec_data_segment() -> Segment {
    Segment {
        base: 0,
        limit: 0xFFFF_FFFF,
        selector: 0x18,
        type_: 0x2,
        present: 1,
        dpl: 0,
        db: 1,
        s: 1,
        l: 0,
        g: 1,
        avl: 0,
        unusable: 0,
    }
}

/// Returns the code segment of the guest.
#[verifier::when_used_as_spec(spec_code_segment)]
pub fn code_segment() -> (seg: Segment)
    ensures
        seg == spec_code_segment(),
{
    assert(SEGMENT_CODE | SEGMENT_CODE_READ == 0xA) by (bit_vector);
    Segment {
        base: 0,
        limit: 0xFFFF_FFFF,
        selector: 0x10,
        type_: SEGMENT_CODE | SEGMENT_CODE_READ,
        present: 1,
        dpl: 0,
        db: 0,
        s: 1,
        l: 1,
        g: 1,
        avl: 0,
        unusable: 0,
    }
}

/// Returns the data segment of the guest.
#[verifier::when_used_as_spec(spec_data_segment)]
pub fn data_segment() -> (seg: Segment)
    ensures
        seg == spec_data_segment(),
{
    Segment {
        base: 0,
        limit: 0xFFFF_FFFF,
        selector: 0x18,
        type_: SEGMENT_DATA_WRITE,
        present: 1,
        dpl: 0,
        db: 1,
        s: 1,
        l: 0,
        g: 1,
        avl: 0,
        unusable: 0,
    }
}

/// Where the protected-mode kernel starts in an image whose first bytes are
/// `params`: behind the boot sector and the setup sectors.
pub open spec fn kernel_offset(params: Seq<u8>) -> int {
    let sects = params[OFF_SETUP_SECTS as int];
    ((if sects == 0 {
        DEFAULT_SETUP_SECTS as int
    } else {
        sects as int
    }) + 1) * SECTOR_SIZE
}

/// The three magic fields of the setup header hold what the protocol asks.
pub open spec fn valid_magic(params: Seq<u8>) -> bool {
    &&& get_u16(params, OFF_BOOT_FLAG as int) == BOOT_FLAG_MAGIC
    &&& get_u32(params, OFF_HEADER as int) == HEADER_MAGIC
    &&& get_u16(params, OFF_JUMP as int) / 0x100 == JUMP_OFFSET
}

/// Start offset of the protected-mode kernel.
pub fn kernel_byte_offset(boot_params: &BootParams) -> (offset: usize)
    ensures
        offset == kernel_offset(boot_params@),
        SECTOR_SIZE * 2 <= offset <= SECTOR_SIZE * 256,
{
    let sects: usize = boot_params.read_u8(OFF_SETUP_SECTS) as usize;
    let sects: usize = if sects == 0 {
        DEFAULT_SETUP_SECTS
    } else {
        sects
    };
    (sects + 1) * SECTOR_SIZE
}

/// The number in `value`, or zero where there is none.
pub open spec fn or_zero(value: Option<u32>) -> u32 {
    match value {
        Some(v) => v,
        None => 0,
    }
}

/// The loader writes byte `k` of `boot_params` when it is given `n` E820
/// entries.
pub open spec fn written_by_loader(k: int, n: int) -> bool {
    ||| OFF_VID_MODE <= k < OFF_VID_MODE + 2
    ||| k == OFF_TYPE_OF_LOADER
    ||| k == OFF_LOADFLAGS
    ||| OFF_RAMDISK_IMAGE <= k < OFF_RAMDISK_IMAGE + 4
    ||| OFF_RAMDISK_SIZE <= k < OFF_RAMDISK_SIZE + 4
    ||| OFF_HEAP_END_PTR <= k < OFF_HEAP_END_PTR + 2
    ||| OFF_CMD_LINE_PTR <= k < OFF_CMD_LINE_PTR + 4
    ||| OFF_EXT_CMD_LINE_PTR <= k < OFF_EXT_CMD_LINE_PTR + 4
    ||| k == OFF_E820_ENTRIES
    ||| OFF_E820_TABLE <= k < OFF_E820_TABLE + E820_ENTRY_SIZE * n
}

/// `params` is what the loader makes of an image that begins with `image`:
/// each field that describes the guest holds its value, the E820 table
/// starts with `entries`, and every other byte is the image's.
pub open spec fn finalized(
    params: Seq<u8>,
    image: Seq<u8>,
    cmdline_addr: u32,
    ramdisk_image: u32,
    ramdisk_size: u32,
    entries: Seq<E820Entry>,
) -> bool {
    &&& params.len() == BOOT_PARAMS_SIZE
    &&& get_u16(params, OFF_VID_MODE as int) == VID_MODE_NORMAL
    &&& params[OFF_TYPE_OF_LOADER as int] == LOADER_UNDEFINED
    &&& params[OFF_LOADFLAGS as int] == image[OFF_LOADFLAGS as int] | LOADED_HIGH | CAN_USE_HEAP
    &&& get_u32(params, OFF_RAMDISK_IMAGE as int) == ramdisk_image
    &&& get_u32(params, OFF_RAMDISK_SIZE as int) == ramdisk_size
    &&& get_u16(params, OFF_HEAP_END_PTR as int) == HEAP_END
    &&& get_u32(params, OFF_CMD_LINE_PTR as int) == cmdline_addr
    &&& get_u32(params, OFF_EXT_CMD_LINE_PTR as int) == 0
    &&& params[OFF_E820_ENTRIES as int] == entries.len()
    &&& forall|i: int| 0 <= i < entries.len() ==> e820_entry_at(params, i) == #[trigger] entries[i]
    &&& forall|k: int|
        0 <= k < BOOT_PARAMS_SIZE && !written_by_loader(k, entries.len() as int)
            ==> #[trigger] params[k] == image[k]
}

/// The error with which the loader refuses `image` with `n` E820 entries, or
/// `None` where it accepts them. The checks are made in this order.
pub open spec fn load_error(image: Seq<u8>, n: nat) -> Option<LoaderError> {
    if image.len() < BOOT_PARAMS_SIZE {
        Some(LoaderError::ImageTooSmall)
    } else if !valid_magic(image) {
        Some(LoaderError::InvalidImage)
    } else if image.len() < kernel_offset(image) {
        Some(LoaderError::ImageTooSmall)
    } else if n > E820_MAX_ENTRIES {
        Some(LoaderError::TooManyEntries)
    } else {
        None
    }
}

/// `params` is `image` with the fields that describe the guest filled in and
/// `count` as the number of E820 entries; the E820 table is the image's.
spec fn described(
    params: Seq<u8>,
    image: Seq<u8>,
    cmdline_addr: u32,
    ramdisk_image: u32,
    ramdisk_size: u32,
    count: u8,
) -> bool {
    &&& params.len() == BOOT_PARAMS_SIZE
    &&& get_u16(params, OFF_VID_MODE as int) == VID_MODE_NORMAL
    &&& params[OFF_TYPE_OF_LOADER as int] == LOADER_UNDEFINED
    &&& params[OFF_LOADFLAGS as int] == image[OFF_LOADFLAGS as int] | LOADED_HIGH | CAN_USE_HEAP
    &&& get_u32(params, OFF_RAMDISK_IMAGE as int) == ramdisk_image
    &&& get_u32(params, OFF_RAMDISK_SIZE as int) == ramdisk_size
    &&& get_u16(params, OFF_HEAP_END_PTR as int) == HEAP_END
    &&& get_u32(params, OFF_CMD_LINE_PTR as int) == cmdline_addr
    &&& get_u32(params, OFF_EXT_CMD_LINE_PTR as int) == 0
    &&& params[OFF_E820_ENTRIES as int] == count
    &&& forall|k: int|
        0 <= k < BOOT_PARAMS_SIZE && !written_by_loader(k, 0) ==> #[trigger] params[k] == image[k]
}

/// Fills in the fields of `params` that describe the guest to the kernel.
fn describe_guest(
    params: &mut BootParams,
    cmdline_addr: u32,
    ramdisk_image: u32,
    ramdisk_size: u32,
    count: u8,
)
    ensures
        described(
            final(params)@,
            old(params)@,
            cmdline_addr,
            ramdisk_image,
            ramdisk_size,
            count,
        ),
{
    let loadflags: u8 = params.read_u8(OFF_LOADFLAGS) | LOADED_HIGH | CAN_USE_HEAP;

    let ghost s0 = params@;
    params.write_u16(OFF_VID_MODE, VID_MODE_NORMAL);
    params.write_u8(OFF_TYPE_OF_LOADER, LOADER_UNDEFINED);
    params.write_u8(OFF_LOADFLAGS, loadflags);
    let ghost s2 = params@;
    params.write_u32(OFF_RAMDISK_IMAGE, ramdisk_image);
    let ghost s3 = params@;
    params.write_u32(OFF_RAMDISK_SIZE, ramdisk_size);
    let ghost s4 = params@;
    params.write_u16(OFF_HEAP_END_PTR, HEAP_END);
    let ghost s5 = params@;
    params.write_u32(OFF_CMD_LINE_PTR, cmdline_addr);
    let ghost s6 = params@;
    params.write_u32(OFF_EXT_CMD_LINE_PTR, 0);
    params.write_u8(OFF_E820_ENTRIES, count);
    proof {
        lemma_put_u16(s0, OFF_VID_MODE as int, VID_MODE_NORMAL);
        lemma_put_u32(s2, OFF_RAMDISK_IMAGE as int, ramdisk_image);
        lemma_put_u32(s3, OFF_RAMDISK_SIZE as int, ramdisk_size);
        lemma_put_u16(s4, OFF_HEAP_END_PTR as int, HEAP_END);
        lemma_put_u32(s5, OFF_CMD_LINE_PTR as int, cmdline_addr);
        lemma_put_u32(s6, OFF_EXT_CMD_LINE_PTR as int, 0);
    }
}

/// Stores `entries` at the start of the E820 table of `params`.
fn store_e820_table(params: &mut BootParams, entries: &[E820Entry])
    requires
        entries@.len() <= E820_MAX_ENTRIES,
    ensures
        final(params)@.len() == BOOT_PARAMS_SIZE,
        forall|i: int|
            0 <= i < entries@.len() ==> e820_entry_at(final(params)@, i) == #[trigger] entries@[i],
        forall|k: int|
            0 <= k < BOOT_PARAMS_SIZE && !(OFF_E820_TABLE <= k < OFF_E820_TABLE + E820_ENTRY_SIZE
                * entries@.len()) ==> #[trigger] final(params)@[k] == old(params)@[k],
{
    let count: usize = entries.len();
    let mut i: usize = 0;
    while i < count
        invariant
            i <= count <= E820_MAX_ENTRIES,
            count == entries@.len(),
            params@.len() == BOOT_PARAMS_SIZE,
            forall|j: int| 0 <= j < i ==> e820_entry_at(params@, j) == #[trigger] entries@[j],
            forall|k: int|
                0 <= k < BOOT_PARAMS_SIZE && !(OFF_E820_TABLE <= k < OFF_E820_TABLE
                    + E820_ENTRY_SIZE * i) ==> #[trigger] params@[k] == old(params)@[k],
        decreases count - i,
    {
        let ghost before = params@;
        params.set_e820_entry(i, entries[i]);
        proof {
            lemma_put_e820_entry(before, i as int, entries@[i as int]);
            assert forall|j: int| 0 <= j < i implies e820_entry_at(params@, j)
                == #[trigger] entries@[j] by {}
        }
        i += 1;
    }
}

/// A kernel image that passed the loader's checks, with the `boot_params`
/// made for it.
pub struct BzImage<'a> {
    bz_image: &'a [u8],
    boot_params: BootParams,
}

impl<'a> BzImage<'a> {
    /// The protected-mode kernel lies inside the image.
    #[verifier::type_invariant]
    spec fn kernel_in_image(self) -> bool {
        kernel_offset(self.boot_params@) <= self.bz_image@.len()
    }

    /// The bytes of the whole image.
    pub closed spec fn image(&self) -> Seq<u8> {
        self.bz_image@
    }

    /// The bytes of the finished `boot_params`.
    pub closed spec fn params(&self) -> Seq<u8> {
        self.boot_params@
    }

    /// Checks `bz_image` and makes its `boot_params`.
    ///
    /// The result is an error exactly where `load_error` names one. Otherwise
    /// the loader holds the image unchanged and `boot_params` made of the
    /// image's first 4096 bytes as `finalized` says.
    pub fn new(
        bz_image: &'a [u8],
        cmdline_addr: u32,
        initramfs_addr: Option<u32>,
        initramfs_size: Option<u32>,
        e820_entries: &[E820Entry],
    ) -> (result: Result<BzImage<'a>, LoaderError>)
        ensures
            match result {
                Ok(loader) => {
                    &&& load_error(bz_image@, e820_entries@.len()) is None
                    &&& loader.image() == bz_image@
                    &&& finalized(
                        loader.params(),
                        bz_image@,
                        cmdline_addr,
                        or_zero(initramfs_addr),
                        or_zero(initramfs_size),
                        e820_entries@,
                    )
                },
                Err(error) => load_error(bz_image@, e820_entries@.len()) == Some(error),
            },
    {
        if bz_image.len() < BOOT_PARAMS_SIZE {
            return Err(LoaderError::ImageTooSmall);
        }
        let mut boot_params = BootParams::zeroed();
        let mut k: usize = 0;
        while k < BOOT_PARAMS_SIZE
            invariant
                k <= BOOT_PARAMS_SIZE <= bz_image@.len(),
                forall|j: int| 0 <= j < k ==> boot_params@[j] == bz_image@[j],
            decreases BOOT_PARAMS_SIZE - k,
        {
            boot_params.write_u8(k, bz_image[k]);
            k += 1;
        }

        if boot_params.read_u16(OFF_BOOT_FLAG) != BOOT_FLAG_MAGIC || boot_params.read_u32(
            OFF_HEADER,
        ) != HEADER_MAGIC || boot_params.read_u16(OFF_JUMP) / 0x100 != JUMP_OFFSET {
            return Err(LoaderError::InvalidImage);
        }
        let offset: usize = kernel_byte_offset(&boot_params);
        if bz_image.len() < offset {
            return Err(LoaderError::ImageTooSmall);
        }
        let count: usize = e820_entries.len();
        if count > E820_MAX_ENTRIES {
            return Err(LoaderError::TooManyEntries);
        }
        let ramdisk_image: u32 = match initramfs_addr {
            Some(addr) => addr,
            None => 0,
        };
        let ramdisk_size: u32 = match initramfs_size {
            Some(size) => size,
            None => 0,
        };
        describe_guest(&mut boot_params, cmdline_addr, ramdisk_image, ramdisk_size, count as u8);
        store_e820_table(&mut boot_params, e820_entries);
        Ok(BzImage { bz_image, boot_params })
    }

    /// Returns the finished `boot_params`.
    pub fn boot_params(&self) -> (params: BootParams)
        ensures
            params@ == self.params(),
    {
        self.boot_params
    }

    /// Returns the protected-mode part of the image: everything from the
    /// kernel offset on. The 64-bit entry point lies 0x200 bytes into it.
    pub fn kernel32_slice(&self) -> (kernel: &'a [u8])
        ensures
            kernel_offset(self.params()) <= self.image().len(),
            kernel@ == self.image().subrange(
                kernel_offset(self.params()),
                self.image().len() as int,
            ),
    {
        proof {
            use_type_invariant(self);
        }
        let offset: usize = kernel_byte_offset(&self.boot_params);
        vstd::slice::slice_subrange(self.bz_image, offset, self.bz_image.len())
    }
}

} // verus!
