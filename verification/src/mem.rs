//! Byte stores with little-endian access. An address wraps around the length
//! of the store, so a store mirrors itself through the region it sits in.

use vstd::prelude::*;
use crate::bits::lemma_halfword_of_bytes;
use crate::bits::lemma_word_of_bytes;

verus! {

/// The index that an address wraps to.
pub open spec fn index_of(bytes: Seq<u8>, addr: u32) -> int {
    addr as int % bytes.len() as int
}

/// The byte at `addr`.
pub open spec fn byte_at(bytes: Seq<u8>, addr: u32) -> u8 {
    bytes[index_of(bytes, addr)]
}

/// The halfword at `addr`, low byte first; bit 0 of the address is ignored.
pub open spec fn halfword_at(bytes: Seq<u8>, addr: u32) -> u16 {
    let a = addr & 0xffff_fffe;
    (byte_at(bytes, a) as u16) | ((byte_at(bytes, (a + 1) as u32) as u16) << 8)
}

/// The word at `addr`, lowest byte first; bits 0 and 1 of the address are
/// ignored.
pub open spec fn word_at(bytes: Seq<u8>, addr: u32) -> u32 {
    let a = addr & 0xffff_fffc;
    (byte_at(bytes, a) as u32) | ((byte_at(bytes, (a + 1) as u32) as u32) << 8) | ((byte_at(
        bytes,
        (a + 2) as u32,
    ) as u32) << 16) | ((byte_at(bytes, (a + 3) as u32) as u32) << 24)
}

/// The store with the byte at `addr` replaced.
pub open spec fn with_byte(bytes: Seq<u8>, addr: u32, value: u8) -> Seq<u8> {
    bytes.update(index_of(bytes, addr), value)
}

/// The store with the halfword at `addr` replaced; bit 0 of the address is
/// ignored.
pub open spec fn with_halfword(bytes: Seq<u8>, addr: u32, value: u16) -> Seq<u8> {
    let a = addr & 0xffff_fffe;
    with_byte(with_byte(bytes, a, value as u8), (a + 1) as u32, (value >> 8) as u8)
}

/// The store with the word at `addr` replaced; bits 0 and 1 of the address
/// are ignored.
pub open spec fn with_word(bytes: Seq<u8>, addr: u32, value: u32) -> Seq<u8> {
    let a = addr & 0xffff_fffc;
    with_byte(
        with_byte(
            with_byte(with_byte(bytes, a, value as u8), (a + 1) as u32, (value >> 8) as u8),
            (a + 2) as u32,
            (value >> 16) as u8,
        ),
        (a + 3) as u32,
        (value >> 24) as u8,
    )
}

/// An aligned address leaves room for the bytes that follow it, and the bits
/// that alignment drops do not matter.
pub proof fn lemma_aligned(addr: u32)
    by (bit_vector)
    ensures
        addr & 0xffff_fffe <= 0xffff_fffe,
        addr & 0xffff_fffc <= 0xffff_fffc,
        (addr | 1) & 0xffff_fffe == addr & 0xffff_fffe,
        (addr & 0xffff_fffe) & 0xffff_fffe == addr & 0xffff_fffe,
        (addr & 0xffff_fffc) & 0xffff_fffc == addr & 0xffff_fffc,
{
}

pub fn read_byte(bytes: &Vec<u8>, addr: u32) -> (r: u8)
    requires
        bytes.len() > 0,
    ensures
        r == byte_at(bytes@, addr),
{
    bytes[addr as usize % bytes.len()]
}

pub fn read_halfword(bytes: &Vec<u8>, addr: u32) -> (r: u16)
    requires
        bytes.len() > 0,
    ensures
        r == halfword_at(bytes@, addr),
{
    proof {
        lemma_aligned(addr);
    }
    let addr = addr & 0xffff_fffe;
    (read_byte(bytes, addr) as u16) | ((read_byte(bytes, addr + 1) as u16) << 8)
}

pub fn read_word(bytes: &Vec<u8>, addr: u32) -> (r: u32)
    requires
        bytes.len() > 0,
    ensures
        r == word_at(bytes@, addr),
{
    proof {
        lemma_aligned(addr);
    }
    let addr = addr & 0xffff_fffc;
    (read_byte(bytes, addr) as u32) | ((read_byte(bytes, addr + 1) as u32) << 8) | ((read_byte(
        bytes,
        addr + 2,
    ) as u32) << 16) | ((read_byte(bytes, addr + 3) as u32) << 24)
}

pub fn write_byte(bytes: &mut Vec<u8>, addr: u32, value: u8)
    requires
        old(bytes).len() > 0,
    ensures
        final(bytes)@ == with_byte(old(bytes)@, addr, value),
        final(bytes).len() == old(bytes).len(),
{
    let index = addr as usize % bytes.len();
    bytes[index] = value;
}

pub fn write_halfword(bytes: &mut Vec<u8>, addr: u32, value: u16)
    requires
        old(bytes).len() > 0,
    ensures
        final(bytes)@ == with_halfword(old(bytes)@, addr, value),
        final(bytes).len() == old(bytes).len(),
{
    proof {
        lemma_aligned(addr);
    }
    let addr = addr & 0xffff_fffe;
    write_byte(bytes, addr, value as u8);
    write_byte(bytes, addr + 1, (value >> 8) as u8);
}

pub fn write_word(bytes: &mut Vec<u8>, addr: u32, value: u32)
    requires
        old(bytes).len() > 0,
    ensures
        final(bytes)@ == with_word(old(bytes)@, addr, value),
        final(bytes).len() == old(bytes).len(),
{
    proof {
        lemma_aligned(addr);
    }
    let addr = addr & 0xffff_fffc;
    write_byte(bytes, addr, value as u8);
    write_byte(bytes, addr + 1, (value >> 8) as u8);
    write_byte(bytes, addr + 2, (value >> 16) as u8);
    write_byte(bytes, addr + 3, (value >> 24) as u8);
}

/// A byte that was written is the byte that is read.
pub proof fn lemma_byte_round_trip(bytes: Seq<u8>, addr: u32, value: u8)
    requires
        bytes.len() > 0,
    ensures
        byte_at(with_byte(bytes, addr, value), addr) == value,
{
}

/// Bit 0 of the address makes no difference to a halfword read.
pub proof fn lemma_halfword_ignores_bit_0(bytes: Seq<u8>, addr: u32)
    ensures
        halfword_at(bytes, addr | 1) == halfword_at(bytes, addr),
{
    lemma_aligned(addr);
}

/// A halfword that was written is the halfword that is read.
pub proof fn lemma_halfword_round_trip(bytes: Seq<u8>, addr: u32, value: u16)
    requires
        bytes.len() >= 2,
    ensures
        halfword_at(with_halfword(bytes, addr, value), addr) == value,
{
    lemma_aligned(addr);
    lemma_halfword_of_bytes(value);
    let a = addr & 0xffff_fffe;
    let n = bytes.len() as int;
    assert(a as int % n != (a + 1) % n) by {
        lemma_neighbours_apart(a as int, 1, n);
    }
}

/// A word that was written is the word that is read.
pub proof fn lemma_word_round_trip(bytes: Seq<u8>, addr: u32, value: u32)
    requires
        bytes.len() >= 4,
    ensures
        word_at(with_word(bytes, addr, value), addr) == value,
{
    lemma_aligned(addr);
    lemma_word_of_bytes(value);
    let a = (addr & 0xffff_fffc) as int;
    let n = bytes.len() as int;
    lemma_neighbours_apart(a, 1, n);
    lemma_neighbours_apart(a, 2, n);
    lemma_neighbours_apart(a, 3, n);
    lemma_neighbours_apart(a + 1, 1, n);
    lemma_neighbours_apart(a + 1, 2, n);
    lemma_neighbours_apart(a + 2, 1, n);
}

/// Two addresses less than the length apart wrap to different indices.
pub proof fn lemma_neighbours_apart(a: int, d: int, n: int)
    requires
        0 <= a,
        0 < d < n,
    ensures
        a % n != (a + d) % n,
        0 <= a % n < n,
        0 <= (a + d) % n < n,
{
    if a % n == (a + d) % n {
        vstd::arithmetic::div_mod::lemma_fundamental_div_mod(a, n);
        vstd::arithmetic::div_mod::lemma_fundamental_div_mod(a + d, n);
        let q1 = a / n;
        let q2 = (a + d) / n;
        assert(d == n * q2 - n * q1);
        assert(d == n * (q2 - q1)) by (nonlinear_arith)
            requires
                d == n * q2 - n * q1,
        ;
        assert(false) by (nonlinear_arith)
            requires
                d == n * (q2 - q1),
                0 < d < n,
        ;
    }
}

} // verus!
