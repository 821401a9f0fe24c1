use vmm::bootparam::{
    BootParams, E820Entry, BOOT_PARAMS_SIZE, E820_MAX_ENTRIES, OFF_CMD_LINE_PTR,
    OFF_E820_ENTRIES, OFF_E820_TABLE, OFF_EXT_CMD_LINE_PTR, OFF_HEAP_END_PTR, OFF_LOADFLAGS,
    OFF_RAMDISK_IMAGE, OFF_RAMDISK_SIZE, OFF_SETUP_SECTS, OFF_TYPE_OF_LOADER, OFF_VID_MODE,
};
use vmm::linux_loader::{kernel_byte_offset, BzImage, LoaderError};

/// An image of `len` bytes with the magic fields that the boot protocol asks
/// for, `setup_sects` setup sectors and every other byte `fill`.
fn image(len: usize, setup_sects: u8, fill: u8) -> Vec<u8> {
    let mut img: Vec<u8> = vec![fill; len];
    // boot_flag = 0xAA55
    img[0x1fe] = 0x55;
    img[0x1ff] = 0xAA;
    // jump = (106 << 8) | 0xEB
    img[0x200] = 0xEB;
    img[0x201] = 106;
    // header = 0x53726448
    img[0x202] = 0x48;
    img[0x203] = 0x64;
    img[0x204] = 0x72;
    img[0x205] = 0x53;
    img[0x1f1] = setup_sects;
    img
}

fn entry(addr: u64, size: u64, type_: u32) -> E820Entry {
    E820Entry { addr, size, type_ }
}

fn three_entries() -> Vec<E820Entry> {
    vec![
        entry(0, 0x9fc00, 1),
        entry(0x9fc00, 1 << 10, 2),
        entry(0x100000, (1 << 30) - 0x100000, 1),
    ]
}

fn error_of(result: Result<BzImage<'_>, LoaderError>) -> Option<LoaderError> {
    match result {
        Ok(_) => None,
        Err(e) => Some(e),
    }
}

#[test]
fn short_buffer_is_too_small() {
    let img: Vec<u8> = vec![0; BOOT_PARAMS_SIZE - 1];
    let r = BzImage::new(&img, 0x20000, None, None, &[]);
    assert_eq!(error_of(r), Some(LoaderError::ImageTooSmall));
}

#[test]
fn empty_buffer_is_too_small() {
    let r = BzImage::new(&[], 0x20000, None, None, &[]);
    assert_eq!(error_of(r), Some(LoaderError::ImageTooSmall));
}

#[test]
fn short_buffer_is_too_small_even_with_too_many_entries() {
    let img: Vec<u8> = vec![0; 16];
    let entries: Vec<E820Entry> = vec![entry(0, 0, 1); E820_MAX_ENTRIES + 1];
    let r = BzImage::new(&img, 0x20000, None, None, &entries);
    assert_eq!(error_of(r), Some(LoaderError::ImageTooSmall));
}

#[test]
fn zero_boot_flag_is_invalid() {
    let mut img: Vec<u8> = image(8192, 4, 0);
    img[0x1fe] = 0;
    img[0x1ff] = 0;
    let r = BzImage::new(&img, 0x20000, None, None, &[]);
    assert_eq!(error_of(r), Some(LoaderError::InvalidImage));
}

#[test]
fn all_zero_buffer_of_valid_size_is_invalid() {
    let img: Vec<u8> = vec![0; BOOT_PARAMS_SIZE];
    let r = BzImage::new(&img, 0x20000, None, None, &[]);
    assert_eq!(error_of(r), Some(LoaderError::InvalidImage));
}

#[test]
fn wrong_header_magic_is_invalid() {
    let mut img: Vec<u8> = image(8192, 4, 0);
    img[0x205] = 0x54;
    let r = BzImage::new(&img, 0x20000, None, None, &[]);
    assert_eq!(error_of(r), Some(LoaderError::InvalidImage));
}

#[test]
fn wrong_jump_offset_is_invalid() {
    let mut img: Vec<u8> = image(8192, 4, 0);
    img[0x201] = 107;
    let r = BzImage::new(&img, 0x20000, None, None, &[]);
    assert_eq!(error_of(r), Some(LoaderError::InvalidImage));
}

#[test]
fn jump_opcode_is_not_checked() {
    let mut img: Vec<u8> = image(8192, 4, 0);
    img[0x200] = 0x00;
    let r = BzImage::new(&img, 0x20000, None, None, &[]);
    assert!(r.is_ok());
}

#[test]
fn invalid_image_comes_before_too_many_entries() {
    let mut img: Vec<u8> = image(8192, 4, 0);
    img[0x1fe] = 0;
    let entries: Vec<E820Entry> = vec![entry(0, 0, 1); E820_MAX_ENTRIES + 1];
    let r = BzImage::new(&img, 0x20000, None, None, &entries);
    assert_eq!(error_of(r), Some(LoaderError::InvalidImage));
}

#[test]
fn image_shorter_than_its_setup_is_too_small() {
    // 16 setup sectors: the kernel starts at 17 * 512 = 8704.
    let img: Vec<u8> = image(8703, 16, 0);
    let r = BzImage::new(&img, 0x20000, None, None, &[]);
    assert_eq!(error_of(r), Some(LoaderError::ImageTooSmall));
    let img: Vec<u8> = image(8704, 16, 0);
    let r = BzImage::new(&img, 0x20000, None, None, &[]);
    assert!(r.is_ok());
    assert_eq!(r.unwrap().kernel32_slice().len(), 0);
}

#[test]
fn valid_image_with_four_setup_sectors() {
    let len: usize = 10_000;
    let img: Vec<u8> = image(len, 4, 0);
    let loader = BzImage::new(&img, 0x20000, None, None, &[]).unwrap();
    assert_eq!(loader.kernel32_slice().len(), len - 2560);
}

#[test]
fn zero_setup_sectors_mean_four() {
    let len: usize = 10_000;
    let img: Vec<u8> = image(len, 0, 0);
    let loader = BzImage::new(&img, 0x20000, None, None, &[]).unwrap();
    assert_eq!(loader.kernel32_slice().len(), len - 2560);
}

#[test]
fn kernel_slice_is_the_tail_of_the_image() {
    let mut img: Vec<u8> = image(6000, 1, 0);
    for (k, b) in img.iter_mut().enumerate().skip(BOOT_PARAMS_SIZE) {
        *b = (k % 251) as u8;
    }
    let loader = BzImage::new(&img, 0x20000, None, None, &[]).unwrap();
    // One setup sector: the kernel starts at 1024, inside the header copy.
    assert_eq!(loader.kernel32_slice(), &img[1024..]);
}

#[test]
fn kernel_offset_formula() {
    let mut params: BootParams = BootParams::zeroed();
    assert_eq!(kernel_byte_offset(&params), 2560);
    params.write_u8(OFF_SETUP_SECTS, 1);
    assert_eq!(kernel_byte_offset(&params), 1024);
    params.write_u8(OFF_SETUP_SECTS, 4);
    assert_eq!(kernel_byte_offset(&params), 2560);
    params.write_u8(OFF_SETUP_SECTS, 255);
    assert_eq!(kernel_byte_offset(&params), 131_072);
}

#[test]
fn too_many_entries_are_refused() {
    let img: Vec<u8> = image(8192, 4, 0);
    let before: Vec<u8> = img.clone();
    let entries: Vec<E820Entry> = vec![entry(1, 2, 1); E820_MAX_ENTRIES + 1];
    let r = BzImage::new(&img, 0x20000, None, None, &entries);
    assert_eq!(error_of(r), Some(LoaderError::TooManyEntries));
    assert_eq!(img, before);
}

#[test]
fn many_more_entries_than_a_byte_counts_are_refused() {
    let img: Vec<u8> = image(8192, 4, 0);
    let entries: Vec<E820Entry> = vec![entry(1, 2, 1); 300];
    let r = BzImage::new(&img, 0x20000, None, None, &entries);
    assert_eq!(error_of(r), Some(LoaderError::TooManyEntries));
}

#[test]
fn a_full_table_is_accepted() {
    let img: Vec<u8> = image(8192, 4, 0);
    let entries: Vec<E820Entry> = (0..E820_MAX_ENTRIES as u64)
        .map(|i| entry(i << 32 | 0xABCD, !i, i as u32 * 3 + 1))
        .collect();
    let loader = BzImage::new(&img, 0x20000, None, None, &entries).unwrap();
    let params: BootParams = loader.boot_params();
    assert_eq!(params.read_u8(OFF_E820_ENTRIES), 128);
    for (i, e) in entries.iter().enumerate() {
        assert_eq!(params.e820_entry(i), *e);
    }
    // The table ends where the next field of the structure begins.
    assert_eq!(OFF_E820_TABLE + 20 * E820_MAX_ENTRIES, 0xCD0);
    assert_eq!(&params.bytes[0xCD0..], &img[0xCD0..BOOT_PARAMS_SIZE]);
}

#[test]
fn e820_round_trip() {
    let img: Vec<u8> = image(8192, 4, 0);
    let entries: Vec<E820Entry> = three_entries();
    let loader = BzImage::new(&img, 0x20000, Some(0xF0_0000), Some(1234), &entries).unwrap();
    let params: BootParams = loader.boot_params();
    assert_eq!(params.read_u8(OFF_E820_ENTRIES) as usize, entries.len());
    for (i, e) in entries.iter().enumerate() {
        assert_eq!(params.e820_entry(i), *e);
    }
    // Byte for byte: each entry is two 64-bit words and one 32-bit word,
    // little-endian, packed.
    let mut expected: Vec<u8> = Vec::new();
    for e in &entries {
        expected.extend_from_slice(&e.addr.to_le_bytes());
        expected.extend_from_slice(&e.size.to_le_bytes());
        expected.extend_from_slice(&e.type_.to_le_bytes());
    }
    assert_eq!(expected.len(), 60);
    assert_eq!(&params.bytes[OFF_E820_TABLE..OFF_E820_TABLE + 60], &expected[..]);
    // Behind the entries the table is the image's.
    assert_eq!(params.bytes[OFF_E820_TABLE + 60], 0);
}

#[test]
fn loader_fills_in_the_guest_description() {
    let img: Vec<u8> = image(8192, 4, 0);
    let loader =
        BzImage::new(&img, 0x2_0000, Some(0xF0_0000), Some(0x12_3456), &three_entries()).unwrap();
    let params: BootParams = loader.boot_params();
    assert_eq!(params.read_u16(OFF_VID_MODE), 0xFFFF);
    assert_eq!(params.read_u8(OFF_TYPE_OF_LOADER), 0xFF);
    assert_eq!(params.read_u8(OFF_LOADFLAGS), 0x81);
    assert_eq!(params.read_u32(OFF_RAMDISK_IMAGE), 0xF0_0000);
    assert_eq!(params.read_u32(OFF_RAMDISK_SIZE), 0x12_3456);
    assert_eq!(params.read_u16(OFF_HEAP_END_PTR), 0xDE00);
    assert_eq!(params.read_u32(OFF_CMD_LINE_PTR), 0x2_0000);
    assert_eq!(params.read_u32(OFF_EXT_CMD_LINE_PTR), 0);
    assert_eq!(params.read_u8(OFF_E820_ENTRIES), 3);
}

#[test]
fn loader_writes_little_endian() {
    let img: Vec<u8> = image(8192, 4, 0);
    let loader = BzImage::new(&img, 0x1122_3344, Some(0xA1B2_C3D4), None, &[]).unwrap();
    let params: BootParams = loader.boot_params();
    assert_eq!(&params.bytes[0x228..0x22c], &[0x44, 0x33, 0x22, 0x11]);
    assert_eq!(&params.bytes[0x218..0x21c], &[0xD4, 0xC3, 0xB2, 0xA1]);
    assert_eq!(&params.bytes[0x224..0x226], &[0x00, 0xDE]);
}

#[test]
fn missing_initramfs_means_zero() {
    let img: Vec<u8> = image(8192, 4, 0xFF);
    let loader = BzImage::new(&img, 0x2_0000, None, None, &[]).unwrap();
    let params: BootParams = loader.boot_params();
    assert_eq!(params.read_u32(OFF_RAMDISK_IMAGE), 0);
    assert_eq!(params.read_u32(OFF_RAMDISK_SIZE), 0);
    assert_eq!(params.read_u32(OFF_EXT_CMD_LINE_PTR), 0);
    assert_eq!(params.read_u8(OFF_E820_ENTRIES), 0);
}

#[test]
fn loadflags_keep_the_image_bits() {
    let mut img: Vec<u8> = image(8192, 4, 0);
    img[OFF_LOADFLAGS] = 0x20;
    let loader = BzImage::new(&img, 0x2_0000, None, None, &[]).unwrap();
    assert_eq!(loader.boot_params().read_u8(OFF_LOADFLAGS), 0xA1);
    img[OFF_LOADFLAGS] = 0xFF;
    let loader = BzImage::new(&img, 0x2_0000, None, None, &[]).unwrap();
    assert_eq!(loader.boot_params().read_u8(OFF_LOADFLAGS), 0xFF);
}

#[test]
fn loader_keeps_every_other_byte() {
    let mut img: Vec<u8> = image(8192, 4, 0);
    for (k, b) in img.iter_mut().enumerate() {
        let magic: bool = (0x1fe..0x206).contains(&k) || k == 0x1f1;
        if !magic {
            *b = (k % 253) as u8;
        }
    }
    let before: Vec<u8> = img.clone();
    let entries: Vec<E820Entry> = three_entries();
    let loader = BzImage::new(&img, 0x2_0000, Some(1), Some(2), &entries).unwrap();
    let params: BootParams = loader.boot_params();
    let written = |k: usize| -> bool {
        (0x1fa..0x1fc).contains(&k)
            || k == 0x210
            || k == 0x211
            || (0x218..0x220).contains(&k)
            || (0x224..0x226).contains(&k)
            || (0x228..0x22c).contains(&k)
            || (0x0c8..0x0cc).contains(&k)
            || k == 0x1e8
            || (0x2d0..0x2d0 + 60).contains(&k)
    };
    for k in 0..BOOT_PARAMS_SIZE {
        if !written(k) {
            assert_eq!(params.bytes[k], img[k], "byte {:#x}", k);
        }
    }
    assert_eq!(img, before);
}

#[test]
fn boot_params_words_round_trip() {
    let mut params: BootParams = BootParams::zeroed();
    params.write_u16(10, 0xBEEF);
    params.write_u32(20, 0xDEAD_BEEF);
    params.write_u64(40, 0x0123_4567_89AB_CDEF);
    assert_eq!(params.read_u16(10), 0xBEEF);
    assert_eq!(params.read_u32(20), 0xDEAD_BEEF);
    assert_eq!(params.read_u64(40), 0x0123_4567_89AB_CDEF);
    assert_eq!(&params.bytes[10..12], &[0xEF, 0xBE]);
    assert_eq!(&params.bytes[40..48], &0x0123_4567_89AB_CDEFu64.to_le_bytes());
    assert_eq!(params.bytes[12], 0);
    params.set_e820_entry(127, entry(u64::MAX, 1, u32::MAX));
    assert_eq!(params.e820_entry(127), entry(u64::MAX, 1, u32::MAX));
    assert_eq!(params.e820_entry(126), entry(0, 0, 0));
    assert_eq!(params.bytes.len(), 4096);
}
