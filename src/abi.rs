//! Byte layout of the kernel records that the decoders read.
//!
//! The offsets are those of 64-bit little-endian Linux targets.
use vstd::prelude::*;

verus! {

/// Offset of `d_off` in `struct linux_dirent64`.
pub const DIRENT_OFF_OFFSET: usize = 8;

/// Offset of `d_reclen` in `struct linux_dirent64`.
pub const DIRENT_RECLEN_OFFSET: usize = 16;

/// Offset of `d_type` in `struct linux_dirent64`.
pub const DIRENT_TYPE_OFFSET: usize = 18;

/// Offset of `d_name`: the size of the header without trailing padding.
pub const DIRENT_NAME_OFFSET: usize = 19;

/// Size of the fixed header of `struct inotify_event`.
pub const INOTIFY_HEADER_SIZE: usize = 16;

/// Alignment of `struct inotify_event`.
pub const INOTIFY_ALIGN: usize = 4;

/// The little-endian 16-bit value stored at `s[i..i + 2]`.
pub open spec fn le_u16(s: Seq<u8>, i: int) -> int {
    s[i] + 256 * s[i + 1]
}

/// The little-endian 32-bit value stored at `s[i..i + 4]`.
pub open spec fn le_u32(s: Seq<u8>, i: int) -> int {
    le_u16(s, i) + 65536 * le_u16(s, i + 2)
}

/// The little-endian 64-bit value stored at `s[i..i + 8]`.
pub open spec fn le_u64(s: Seq<u8>, i: int) -> int {
    le_u32(s, i) + 4294967296 * le_u32(s, i + 4)
}

/// The index of the first zero byte of `s[i..end]`, or `end` if there is none.
pub open spec fn first_zero(s: Seq<u8>, i: int, end: int) -> int
    decreases end - i,
{
    if i >= end {
        end
    } else if s[i] == 0 {
        i
    } else {
        first_zero(s, i + 1, end)
    }
}

pub proof fn lemma_first_zero_bounds(s: Seq<u8>, i: int, end: int)
    requires
        i <= end,
    ensures
        i <= first_zero(s, i, end) <= end,
        first_zero(s, i, end) < end ==> s[first_zero(s, i, end)] == 0,
        forall|j: int| i <= j < first_zero(s, i, end) ==> s[j] != 0,
    decreases end - i,
{
    if i < end && s[i] != 0 {
        lemma_first_zero_bounds(s, i + 1, end);
    }
}

/// `first_zero` only looks at `s[i..end]`.
pub proof fn lemma_first_zero_same(s: Seq<u8>, t: Seq<u8>, i: int, end: int)
    requires
        0 <= i <= end,
        end <= s.len(),
        end <= t.len(),
        forall|j: int| i <= j < end ==> s[j] == t[j],
    ensures
        first_zero(s, i, end) == first_zero(t, i, end),
    decreases end - i,
{
    if i < end {
        lemma_first_zero_same(s, t, i + 1, end);
    }
}

/// `first_zero` over a window of `s` that starts at `base` is `first_zero`
/// over `s`, moved by `base`.
pub proof fn lemma_first_zero_shift(s: Seq<u8>, base: int, i: int, end: int)
    requires
        0 <= base <= i,
        end <= s.len(),
    ensures
        first_zero(s.subrange(base, s.len() as int), i - base, end - base) + base
            == first_zero(s, i, end),
    decreases end - i,
{
    if i < end {
        lemma_first_zero_shift(s, base, i + 1, end);
    }
}

/// Reads the little-endian 16-bit value at `b[i..i + 2]`.
pub fn read_u16(b: &[u8], i: usize) -> (r: u16)
    requires
        i + 2 <= b@.len(),
    ensures
        r as int == le_u16(b@, i as int),
{
    b[i] as u16 + 256 * (b[i + 1] as u16)
}

/// Reads the little-endian 32-bit value at `b[i..i + 4]`.
pub fn read_u32(b: &[u8], i: usize) -> (r: u32)
    requires
        i + 4 <= b@.len(),
    ensures
        r as int == le_u32(b@, i as int),
{
    // The length of a slice is a `usize`, so the indices below do not overflow.
    let _len = b.len();
    let lo = read_u16(b, i);
    let hi = read_u16(b, i + 2);
    lo as u32 + 65536 * (hi as u32)
}

/// Reads the little-endian 64-bit value at `b[i..i + 8]`.
pub fn read_u64(b: &[u8], i: usize) -> (r: u64)
    requires
        i + 8 <= b@.len(),
    ensures
        r as int == le_u64(b@, i as int),
{
    // The length of a slice is a `usize`, so the indices below do not overflow.
    let _len = b.len();
    let lo = read_u32(b, i);
    let hi = read_u32(b, i + 4);
    lo as u64 + 4294967296 * (hi as u64)
}

/// Finds the first zero byte of `b[i..end]`, or `end` if there is none.
pub fn find_zero(b: &[u8], i: usize, end: usize) -> (r: usize)
    requires
        i <= end <= b@.len(),
    ensures
        r as int == first_zero(b@, i as int, end as int),
{
    let mut k: usize = i;
    while k < end && b[k] != 0
        invariant
            i <= k <= end,
            end <= b@.len(),
            first_zero(b@, k as int, end as int) == first_zero(b@, i as int, end as int),
        decreases end - k,
    {
        k = k + 1;
    }
    k
}

} // verus!
