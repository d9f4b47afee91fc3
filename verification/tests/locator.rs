use appimage_runtime::elf::{image_offset, LocateError};

/// A 64-byte ELF header, 64-bit little endian, with the given
/// section-header table fields.
fn elf64_le(shoff: u64, shentsize: u16, shnum: u16) -> Vec<u8> {
    let mut b = vec![0u8; 64];
    b[0] = 0x7f;
    b[1] = b'E';
    b[2] = b'L';
    b[3] = b'F';
    b[4] = 2; // 64-bit
    b[5] = 1; // little endian
    b[40..48].copy_from_slice(&shoff.to_le_bytes());
    b[58..60].copy_from_slice(&shentsize.to_le_bytes());
    b[60..62].copy_from_slice(&shnum.to_le_bytes());
    b
}

/// A 52-byte ELF header, 32-bit big endian, with the given
/// section-header table fields.
fn elf32_be(shoff: u32, shentsize: u16, shnum: u16) -> Vec<u8> {
    let mut b = vec![0u8; 52];
    b[0] = 0x7f;
    b[1] = b'E';
    b[2] = b'L';
    b[3] = b'F';
    b[4] = 1; // 32-bit
    b[5] = 2; // big endian
    b[32..36].copy_from_slice(&shoff.to_be_bytes());
    b[46..48].copy_from_slice(&shentsize.to_be_bytes());
    b[48..50].copy_from_slice(&shnum.to_be_bytes());
    b
}

#[test]
fn offset_is_shoff_plus_table_extent_64le() {
    let b = elf64_le(1000, 64, 10);
    assert_eq!(image_offset(&b), Ok(1000 + 64 * 10));
}

#[test]
fn offset_is_shoff_plus_table_extent_32be() {
    let b = elf32_be(500, 40, 7);
    assert_eq!(image_offset(&b), Ok(500 + 40 * 7));
}

#[test]
fn offset_with_empty_table_is_shoff() {
    let b = elf64_le(4096, 64, 0);
    assert_eq!(image_offset(&b), Ok(4096));
}

#[test]
fn offset_ignores_appended_image_content() {
    let header = elf64_le(2000, 64, 5);
    let mut with_image = header.clone();
    with_image.extend_from_slice(b"arbitrary appended filesystem image bytes");
    let mut with_other_image = header.clone();
    with_other_image.extend_from_slice(&[0xab; 512]);
    let from_header = image_offset(&header);
    assert_eq!(from_header, Ok(2000 + 64 * 5));
    assert_eq!(image_offset(&with_image), from_header);
    assert_eq!(image_offset(&with_other_image), from_header);
}

#[test]
fn rejects_wrong_magic() {
    let mut b = elf64_le(1000, 64, 10);
    b[0] = 0x7e;
    assert_eq!(image_offset(&b), Err(LocateError::NotExecutable));
}

#[test]
fn rejects_short_file() {
    let b = elf64_le(1000, 64, 10);
    assert_eq!(image_offset(&b[..5]), Err(LocateError::NotExecutable));
    assert_eq!(image_offset(&b[..40]), Err(LocateError::NotExecutable));
    assert_eq!(image_offset(&[]), Err(LocateError::NotExecutable));
}

#[test]
fn rejects_unknown_class_or_byte_order() {
    let mut b = elf64_le(1000, 64, 10);
    b[4] = 3;
    assert_eq!(image_offset(&b), Err(LocateError::NotExecutable));
    let mut b = elf64_le(1000, 64, 10);
    b[5] = 0;
    assert_eq!(image_offset(&b), Err(LocateError::NotExecutable));
}

#[test]
fn rejects_offset_past_u64() {
    let b = elf64_le(u64::MAX, 64, 10);
    assert_eq!(image_offset(&b), Err(LocateError::OffsetOverflow));
}
