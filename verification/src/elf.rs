//! Image Locator: finds where the embedded filesystem image begins.
//!
//! A bundle appends its filesystem image directly after everything the
//! executable format itself accounts for.  For an ELF host executable that
//! end is `e_shoff + e_shentsize * e_shnum`: the section-header table is the
//! last structure the header describes.  This module reads those three
//! fields straight from the file's bytes (both ELF classes, both byte
//! orders) and computes the offset, rejecting anything that is not a
//! well-formed ELF header.

use vstd::prelude::*;

verus! {

/// 256 raised to `n`: the number of values of an `n`-byte field.
pub open spec fn pow256(n: nat) -> nat
    decreases n,
{
    if n == 0 {
        1
    } else {
        256 * pow256((n - 1) as nat)
    }
}

/// The little-endian value of the `n` bytes of `b` starting at `i`.
pub open spec fn le_at(b: Seq<u8>, i: int, n: nat) -> nat
    decreases n,
{
    if n == 0 {
        0
    } else {
        (b[i] + 256 * le_at(b, i + 1, (n - 1) as nat)) as nat
    }
}

/// The big-endian value of the `n` bytes of `b` starting at `i`.
pub open spec fn be_at(b: Seq<u8>, i: int, n: nat) -> nat
    decreases n,
{
    if n == 0 {
        0
    } else {
        (256 * be_at(b, i, (n - 1) as nat) + b[i + n - 1]) as nat
    }
}

pub proof fn lemma_pow256_mono(a: nat, b: nat)
    requires
        a <= b,
    ensures
        pow256(a) <= pow256(b),
    decreases b,
{
    if a < b {
        lemma_pow256_mono(a, (b - 1) as nat);
    }
}

pub proof fn lemma_le_at_bound(b: Seq<u8>, i: int, n: nat)
    ensures
        le_at(b, i, n) < pow256(n),
    decreases n,
{
    if n > 0 {
        lemma_le_at_bound(b, i + 1, (n - 1) as nat);
    }
}

pub proof fn lemma_be_at_bound(b: Seq<u8>, i: int, n: nat)
    ensures
        be_at(b, i, n) < pow256(n),
    decreases n,
{
    if n > 0 {
        lemma_be_at_bound(b, i, (n - 1) as nat);
    }
}

proof fn lemma_pow256_values()
    ensures
        pow256(7) == 0x100000000000000,
        pow256(8) == 0x10000000000000000,
        pow256(2) == 0x10000,
{
    assert(pow256(0) == 1);
    assert(pow256(1) == 256);
    assert(pow256(2) == 0x10000);
    assert(pow256(3) == 0x1000000);
    assert(pow256(4) == 0x100000000);
    assert(pow256(5) == 0x10000000000);
    assert(pow256(6) == 0x1000000000000);
    assert(pow256(7) == 0x100000000000000);
    assert(pow256(8) == 0x10000000000000000);
}

/// Reads the `n`-byte field at `i` as little endian.
fn read_le(b: &[u8], i: usize, n: usize) -> (r: u64)
    requires
        i + n <= b@.len(),
        n <= 8,
    ensures
        r as nat == le_at(b@, i as int, n as nat),
    decreases n,
{
    if n == 0 {
        0
    } else {
        let _avail: usize = b.len();
        let rest = read_le(b, i + 1, n - 1);
        proof {
            lemma_le_at_bound(b@, i as int + 1, (n - 1) as nat);
            lemma_pow256_mono((n - 1) as nat, 7);
            lemma_pow256_values();
        }
        b[i] as u64 + 256 * rest
    }
}

/// Reads the `n`-byte field at `i` as big endian.
fn read_be(b: &[u8], i: usize, n: usize) -> (r: u64)
    requires
        i + n <= b@.len(),
        n <= 8,
    ensures
        r as nat == be_at(b@, i as int, n as nat),
    decreases n,
{
    if n == 0 {
        0
    } else {
        let _avail: usize = b.len();
        let rest = read_be(b, i, n - 1);
        proof {
            lemma_be_at_bound(b@, i as int, (n - 1) as nat);
            lemma_pow256_mono((n - 1) as nat, 7);
            lemma_pow256_values();
        }
        256 * rest + b[i + n - 1] as u64
    }
}

/// The file starts with the ELF magic bytes.
pub open spec fn has_elf_magic(b: Seq<u8>) -> bool {
    b.len() >= 4 && b[0] == 0x7f && b[1] == 0x45 && b[2] == 0x4c && b[3] == 0x46
}

/// Length of the ELF header for a given class byte (1 = 32-bit, 2 = 64-bit).
pub open spec fn elf_header_len(class: u8) -> nat {
    if class == 1 {
        52
    } else {
        64
    }
}

/// The header is complete enough for the Image Locator: magic, a known
/// class, a known byte order, and all bytes of the header present.
pub open spec fn elf_well_formed(b: Seq<u8>) -> bool {
    &&& has_elf_magic(b)
    &&& b.len() >= 6
    &&& (b[4] == 1 || b[4] == 2)
    &&& (b[5] == 1 || b[5] == 2)
    &&& b.len() >= elf_header_len(b[4])
}

/// The `n`-byte header field at `i`, read in the header's own byte order.
pub open spec fn field_at(b: Seq<u8>, i: int, n: nat) -> nat {
    if b[5] == 1 {
        le_at(b, i, n)
    } else {
        be_at(b, i, n)
    }
}

/// The section-header table offset (`e_shoff`).
pub open spec fn sh_offset(b: Seq<u8>) -> nat {
    if b[4] == 1 {
        field_at(b, 32, 4)
    } else {
        field_at(b, 40, 8)
    }
}

/// The size of one section-header table entry (`e_shentsize`).
pub open spec fn sh_entsize(b: Seq<u8>) -> nat {
    if b[4] == 1 {
        field_at(b, 46, 2)
    } else {
        field_at(b, 58, 2)
    }
}

/// The number of section-header table entries (`e_shnum`).
pub open spec fn sh_num(b: Seq<u8>) -> nat {
    if b[4] == 1 {
        field_at(b, 48, 2)
    } else {
        field_at(b, 60, 2)
    }
}

/// Where the embedded image begins: the first byte past the last
/// section-header table entry.
pub open spec fn image_offset_of(b: Seq<u8>) -> nat {
    sh_offset(b) + sh_entsize(b) * sh_num(b)
}

/// With an empty section-header table the image begins at the table's
/// offset itself.
pub proof fn lemma_image_offset_empty_table(b: Seq<u8>)
    requires
        sh_num(b) == 0,
    ensures
        image_offset_of(b) == sh_offset(b),
{
}

pub proof fn lemma_le_at_agree(b1: Seq<u8>, b2: Seq<u8>, i: int, n: nat)
    requires
        forall|j: int| i <= j < i + n ==> b1[j] == b2[j],
    ensures
        le_at(b1, i, n) == le_at(b2, i, n),
    decreases n,
{
    if n > 0 {
        lemma_le_at_agree(b1, b2, i + 1, (n - 1) as nat);
    }
}

pub proof fn lemma_be_at_agree(b1: Seq<u8>, b2: Seq<u8>, i: int, n: nat)
    requires
        forall|j: int| i <= j < i + n ==> b1[j] == b2[j],
    ensures
        be_at(b1, i, n) == be_at(b2, i, n),
    decreases n,
{
    if n > 0 {
        lemma_be_at_agree(b1, b2, i, (n - 1) as nat);
    }
}

/// The locator reads the header alone: two files that agree on their
/// first 64 bytes agree on well-formedness and place the image at the
/// same offset, whatever either one appends after the header.
pub proof fn lemma_locator_reads_header_only(b1: Seq<u8>, b2: Seq<u8>)
    requires
        b1.len() >= 64,
        b2.len() >= 64,
        forall|j: int| 0 <= j < 64 ==> b1[j] == b2[j],
    ensures
        elf_well_formed(b1) == elf_well_formed(b2),
        elf_well_formed(b1) ==> image_offset_of(b1) == image_offset_of(b2),
{
    lemma_le_at_agree(b1, b2, 32, 4);
    lemma_be_at_agree(b1, b2, 32, 4);
    lemma_le_at_agree(b1, b2, 46, 2);
    lemma_be_at_agree(b1, b2, 46, 2);
    lemma_le_at_agree(b1, b2, 48, 2);
    lemma_be_at_agree(b1, b2, 48, 2);
    lemma_le_at_agree(b1, b2, 40, 8);
    lemma_be_at_agree(b1, b2, 40, 8);
    lemma_le_at_agree(b1, b2, 58, 2);
    lemma_be_at_agree(b1, b2, 58, 2);
    lemma_le_at_agree(b1, b2, 60, 2);
    lemma_be_at_agree(b1, b2, 60, 2);
}

/// Why a file yields no image offset.
#[derive(Clone, Copy, Debug, PartialEq, Eq, Structural)]
pub enum LocateError {
    /// Not a complete ELF header: wrong magic, unknown class or byte
    /// order, or too short.
    NotExecutable,
    /// The header fields place the image past what a byte offset can hold.
    OffsetOverflow,
}

/// Reads the `n`-byte field at `i` in the byte order named by `little`.
fn read_field(b: &[u8], i: usize, n: usize, little: bool) -> (r: u64)
    requires
        i + n <= b@.len(),
        n <= 8,
    ensures
        little ==> r as nat == le_at(b@, i as int, n as nat),
        !little ==> r as nat == be_at(b@, i as int, n as nat),
{
    if little {
        read_le(b, i, n)
    } else {
        read_be(b, i, n)
    }
}

/// Computes the byte offset of the embedded filesystem image from the
/// bundle's leading bytes: `e_shoff + e_shentsize * e_shnum`.
pub fn image_offset(bytes: &[u8]) -> (r: Result<u64, LocateError>)
    ensures
        elf_well_formed(bytes@) && image_offset_of(bytes@) <= u64::MAX ==> r == Ok::<
            u64,
            LocateError,
        >(image_offset_of(bytes@) as u64),
        elf_well_formed(bytes@) && image_offset_of(bytes@) > u64::MAX ==> r == Err::<
            u64,
            LocateError,
        >(LocateError::OffsetOverflow),
        !elf_well_formed(bytes@) ==> r == Err::<u64, LocateError>(LocateError::NotExecutable),
{
    if bytes.len() < 6 {
        return Err(LocateError::NotExecutable);
    }
    if !(bytes[0] == 0x7f && bytes[1] == 0x45 && bytes[2] == 0x4c && bytes[3] == 0x46) {
        return Err(LocateError::NotExecutable);
    }
    let class = bytes[4];
    let data = bytes[5];
    if !(class == 1 || class == 2) || !(data == 1 || data == 2) {
        return Err(LocateError::NotExecutable);
    }
    let little = data == 1;
    if class == 1 {
        if bytes.len() < 52 {
            return Err(LocateError::NotExecutable);
        }
        let off = read_field(bytes, 32, 4, little);
        let entsize = read_field(bytes, 46, 2, little);
        let num = read_field(bytes, 48, 2, little);
        proof {
            lemma_pow256_values();
            lemma_le_at_bound(bytes@, 46, 2);
            lemma_be_at_bound(bytes@, 46, 2);
            lemma_le_at_bound(bytes@, 48, 2);
            lemma_be_at_bound(bytes@, 48, 2);
        }
        checked_image_offset(bytes, off, entsize, num)
    } else {
        if bytes.len() < 64 {
            return Err(LocateError::NotExecutable);
        }
        let off = read_field(bytes, 40, 8, little);
        let entsize = read_field(bytes, 58, 2, little);
        let num = read_field(bytes, 60, 2, little);
        proof {
            lemma_pow256_values();
            lemma_le_at_bound(bytes@, 58, 2);
            lemma_be_at_bound(bytes@, 58, 2);
            lemma_le_at_bound(bytes@, 60, 2);
            lemma_be_at_bound(bytes@, 60, 2);
        }
        checked_image_offset(bytes, off, entsize, num)
    }
}

/// Adds the table extent to its offset, rejecting a sum that does not fit
/// in a byte offset.
fn checked_image_offset(bytes: &[u8], off: u64, entsize: u64, num: u64) -> (r: Result<
    u64,
    LocateError,
>)
    requires
        elf_well_formed(bytes@),
        off as nat == sh_offset(bytes@),
        entsize as nat == sh_entsize(bytes@),
        num as nat == sh_num(bytes@),
        entsize < 0x10000,
        num < 0x10000,
    ensures
        image_offset_of(bytes@) <= u64::MAX ==> r == Ok::<u64, LocateError>(
            image_offset_of(bytes@) as u64,
        ),
        image_offset_of(bytes@) > u64::MAX ==> r == Err::<u64, LocateError>(
            LocateError::OffsetOverflow,
        ),
{
    proof {
        assert(entsize * num <= 0xffff * 0xffff) by (nonlinear_arith)
            requires
                entsize < 0x10000,
                num < 0x10000,
        ;
    }
    let extent = entsize * num;
    if off > u64::MAX - extent {
        Err(LocateError::OffsetOverflow)
    } else {
        Ok(off + extent)
    }
}

} // verus!
