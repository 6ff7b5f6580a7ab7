//! A byte buffer as an arena: what lies inside it, and the little-endian integers
//! that it holds.

use vstd::prelude::*;

verus! {

/// Whether the `size` bytes that start at `at` lie inside a buffer of `len` bytes.
pub open spec fn fits(len: nat, at: int, size: int) -> bool {
    0 <= at && 0 <= size && at + size <= len
}

/// Whether `count` records of `size` bytes, placed `stride` bytes apart from `at`
/// on, lie inside a buffer of `len` bytes. What follows the last record up to its
/// stride need not be there.
pub open spec fn array_fits(len: nat, at: int, count: nat, stride: nat, size: nat) -> bool {
    count == 0 || fits(len, at + (count - 1) * stride, size as int)
}

/// The array whose elements are those of `s`, for a sequence of `N` elements;
/// `lemma_array_of` shows that there is one.
pub open spec fn array_of<T, const N: usize>(s: Seq<T>) -> [T; N] {
    choose|a: [T; N]| a@ == s
}

/// The 16-bit little-endian integer stored in `s` at position `at`.
pub open spec fn le_u16(s: Seq<u8>, at: int) -> u16 {
    (s[at] as int + 0x100 * (s[at + 1] as int)) as u16
}

/// The 32-bit little-endian integer stored in `s` at position `at`.
pub open spec fn le_u32(s: Seq<u8>, at: int) -> u32 {
    (le_u16(s, at) as int + 0x1_0000 * (le_u16(s, at + 2) as int)) as u32
}

/// The 64-bit little-endian integer stored in `s` at position `at`.
pub open spec fn le_u64(s: Seq<u8>, at: int) -> u64 {
    (le_u32(s, at) as int + 0x1_0000_0000 * (le_u32(s, at + 4) as int)) as u64
}

/// The 128-bit little-endian integer stored in `s` at position `at`.
pub open spec fn le_u128(s: Seq<u8>, at: int) -> u128 {
    (le_u64(s, at) as int + 0x1_0000_0000_0000_0000 * (le_u64(s, at + 8) as int)) as u128
}

/// Reads the 16-bit little-endian integer at `at`.
pub fn read_u16(buf: &[u8], at: usize) -> (v: u16)
    requires
        at + 2 <= buf.len(),
    ensures
        v == le_u16(buf@, at as int),
{
    let lo: u16 = buf[at] as u16;
    let hi: u16 = buf[at + 1] as u16;
    lo + 0x100 * hi
}

/// Reads the 32-bit little-endian integer at `at`.
pub fn read_u32(buf: &[u8], at: usize) -> (v: u32)
    requires
        at + 4 <= buf.len(),
    ensures
        v == le_u32(buf@, at as int),
{
    let lo: u32 = read_u16(buf, at) as u32;
    let hi: u32 = read_u16(buf, at + 2) as u32;
    lo + 0x1_0000 * hi
}

/// Reads the 64-bit little-endian integer at `at`.
pub fn read_u64(buf: &[u8], at: usize) -> (v: u64)
    requires
        at + 8 <= buf.len(),
    ensures
        v == le_u64(buf@, at as int),
{
    let lo: u64 = read_u32(buf, at) as u64;
    let hi: u64 = read_u32(buf, at + 4) as u64;
    lo + 0x1_0000_0000 * hi
}

/// Reads the 128-bit little-endian integer at `at`.
pub fn read_u128(buf: &[u8], at: usize) -> (v: u128)
    requires
        at + 16 <= buf.len(),
    ensures
        v == le_u128(buf@, at as int),
{
    let lo: u128 = read_u64(buf, at) as u128;
    let hi: u128 = read_u64(buf, at + 8) as u128;
    lo + 0x1_0000_0000_0000_0000 * hi
}

/// A slice without bytes.
pub fn no_bytes<'a>() -> (r: &'a [u8])
    ensures
        r@ == Seq::<u8>::empty(),
{
    let r: &'a [u8] = &[];
    r
}

/// Tells whether the `size` bytes at `at` lie inside `buf`.
pub fn has_room(buf: &[u8], at: usize, size: usize) -> (b: bool)
    ensures
        b == fits(buf@.len(), at as int, size as int),
        buf@.len() == buf.len(),
{
    at <= buf.len() && size <= buf.len() - at
}

/// Tells whether `count` records of `size` bytes, `stride` bytes apart, lie inside
/// `buf` from `at` on.
pub fn has_room_for_array(buf: &[u8], at: usize, count: u64, stride: usize, size: usize) -> (b:
    bool)
    requires
        0 < size <= stride,
    ensures
        b == array_fits(buf@.len(), at as int, count as nat, stride as nat, size as nat),
        b ==> count <= usize::MAX,
        buf@.len() == buf.len(),
{
    if count == 0 {
        return true;
    }
    if !has_room(buf, at, size) {
        proof {
            assert((count - 1) * stride >= 0) by (nonlinear_arith)
                requires
                    count >= 1,
                    stride >= 0,
            ;
        }
        return false;
    }
    let spare: usize = buf.len() - at - size;
    let most: usize = spare / stride;
    proof {
        let c = (count - 1) as int;
        let d = stride as int;
        let r = spare as int;
        assert(c * d <= r <==> c <= r / d) by (nonlinear_arith)
            requires
                c >= 0,
                d > 0,
                r >= 0,
        ;
        assert(r / d <= r) by (nonlinear_arith)
            requires
                d > 0,
                r >= 0,
        ;
    }
    count - 1 <= most as u64
}

/// An array with the elements of `s` exists, and `array_of` names it.
pub proof fn lemma_array_of<T, const N: usize>(s: Seq<T>)
    requires
        s.len() == N,
    ensures
        array_of::<T, N>(s)@ == s,
{
    let a = array_with_prefix::<T, N>(s, N as nat);
    assert(a@ =~= s);
}

/// An array whose first `k` elements are those of `s`.
proof fn array_with_prefix<T, const N: usize>(s: Seq<T>, k: nat) -> (a: [T; N])
    requires
        s.len() == N,
        k <= N,
    ensures
        forall|i: int| 0 <= i < k ==> a@[i] == s[i],
    decreases k,
{
    if k == 0 {
        arbitrary()
    } else {
        let b = array_with_prefix::<T, N>(s, (k - 1) as nat);
        vstd::array::spec_array_update(b, k - 1, s[k - 1])
    }
}

/// Copies the `N` bytes at `at` into an array.
pub fn read_bytes<const N: usize>(buf: &[u8], at: usize) -> (a: [u8; N])
    requires
        at + N <= buf.len(),
    ensures
        a == array_of::<u8, N>(buf@.subrange(at as int, at + N)),
{
    let mut a: [u8; N] = [0u8; N];
    let mut i: usize = 0;
    while i < N
        invariant
            i <= N,
            at + N <= buf.len(),
            forall|j: int| 0 <= j < i ==> a@[j] == buf@[at + j],
        decreases N - i,
    {
        a[i] = buf[at + i];
        i += 1;
    }
    proof {
        let s = buf@.subrange(at as int, at + N);
        lemma_array_of::<u8, N>(s);
    }
    a
}

/// Reads `N` consecutive 64-bit little-endian integers from `at` on.
pub fn read_u64s<const N: usize>(buf: &[u8], at: usize) -> (a: [u64; N])
    requires
        at + 8 * N <= buf.len(),
    ensures
        a == array_of::<u64, N>(Seq::new(N as nat, |j: int| le_u64(buf@, at + 8 * j))),
{
    let mut a: [u64; N] = [0u64; N];
    let mut i: usize = 0;
    while i < N
        invariant
            i <= N,
            at + 8 * N <= buf.len(),
            forall|j: int| 0 <= j < i ==> a@[j] == le_u64(buf@, at + 8 * j),
        decreases N - i,
    {
        a[i] = read_u64(buf, at + 8 * i);
        i += 1;
    }
    proof {
        let s = Seq::new(N as nat, |j: int| le_u64(buf@, at + 8 * j));
        lemma_array_of::<u64, N>(s);
    }
    a
}

/// Reads `N` consecutive 128-bit little-endian integers from `at` on.
pub fn read_u128s<const N: usize>(buf: &[u8], at: usize) -> (a: [u128; N])
    requires
        at + 16 * N <= buf.len(),
    ensures
        a == array_of::<u128, N>(Seq::new(N as nat, |j: int| le_u128(buf@, at + 16 * j))),
{
    let mut a: [u128; N] = [0u128; N];
    let mut i: usize = 0;
    while i < N
        invariant
            i <= N,
            at + 16 * N <= buf.len(),
            forall|j: int| 0 <= j < i ==> a@[j] == le_u128(buf@, at + 16 * j),
        decreases N - i,
    {
        a[i] = read_u128(buf, at + 16 * i);
        i += 1;
    }
    proof {
        let s = Seq::new(N as nat, |j: int| le_u128(buf@, at + 16 * j));
        lemma_array_of::<u128, N>(s);
    }
    a
}

} // verus!
