//! Cartridge RAM: a byte store that the host keeps between runs and that
//! mirrors itself through its 16 MiB region.

use vstd::prelude::*;
use crate::mem;

verus! {

pub const DEFAULT_SRAM_SIZE: usize = 0x0000_2000;
pub const MIN_SRAM_SIZE: usize = 4;
pub const MAX_SRAM_SIZE: usize = 0x0100_0000;

/// The sizes cartridge RAM can have: the powers of two from 4 bytes to
/// 16 MiB, which are the sizes of at least 4 bytes that divide the region
/// evenly.
pub open spec fn valid_sram_size(size: nat) -> bool {
    MIN_SRAM_SIZE <= size <= MAX_SRAM_SIZE && MAX_SRAM_SIZE as nat % size == 0
}

pub struct Sram {
    bytes: Vec<u8>,
}

impl View for Sram {
    type V = Seq<u8>;

    closed spec fn view(&self) -> Seq<u8> {
        self.bytes@
    }
}

impl Sram {
    #[verifier::type_invariant]
    spec fn inv(self) -> bool {
        valid_sram_size(self.bytes@.len())
    }

    /// Fresh cartridge RAM: 8 KiB of zeros.
    pub fn new() -> (sram: Sram)
        ensures
            sram@ == Seq::new(DEFAULT_SRAM_SIZE as nat, |i: int| 0u8),
            valid_sram_size(sram@.len()),
    {
        let bytes = vec![0u8; DEFAULT_SRAM_SIZE];
        assert(bytes@ =~= Seq::new(DEFAULT_SRAM_SIZE as nat, |i: int| 0u8));
        Sram { bytes }
    }

    /// Cartridge RAM with the contents that were kept, if they have a valid
    /// size.
    pub fn from_bytes(bytes: Vec<u8>) -> (r: Option<Sram>)
        ensures
            r is Some <==> valid_sram_size(bytes@.len()),
            r matches Some(sram) ==> sram@ == bytes@,
    {
        let size = bytes.len();
        if size < MIN_SRAM_SIZE || size > MAX_SRAM_SIZE || MAX_SRAM_SIZE % size != 0 {
            None
        } else {
            Some(Sram { bytes })
        }
    }

    /// The contents, for the host to keep.
    pub fn bytes(&self) -> (r: &Vec<u8>)
        ensures
            r@ == self@,
            valid_sram_size(self@.len()),
    {
        proof {
            use_type_invariant(self);
        }
        &self.bytes
    }

    pub fn read_byte(&self, addr: u32) -> (r: u8)
        ensures
            r == mem::byte_at(self@, addr),
            valid_sram_size(self@.len()),
    {
        proof {
            use_type_invariant(self);
        }
        mem::read_byte(&self.bytes, addr)
    }

    pub fn read_halfword(&self, addr: u32) -> (r: u16)
        ensures
            r == mem::halfword_at(self@, addr),
            valid_sram_size(self@.len()),
    {
        proof {
            use_type_invariant(self);
        }
        mem::read_halfword(&self.bytes, addr)
    }

    pub fn read_word(&self, addr: u32) -> (r: u32)
        ensures
            r == mem::word_at(self@, addr),
            valid_sram_size(self@.len()),
    {
        proof {
            use_type_invariant(self);
        }
        mem::read_word(&self.bytes, addr)
    }

    pub fn write_byte(&mut self, addr: u32, value: u8)
        ensures
            final(self)@ == mem::with_byte(old(self)@, addr, value),
            final(self)@.len() == old(self)@.len(),
            valid_sram_size(final(self)@.len()),
    {
        proof {
            use_type_invariant(&*self);
        }
        let index = addr as usize % self.bytes.len();
        self.bytes[index] = value;
    }

    pub fn write_halfword(&mut self, addr: u32, value: u16)
        ensures
            final(self)@ == mem::with_halfword(old(self)@, addr, value),
            final(self)@.len() == old(self)@.len(),
            valid_sram_size(final(self)@.len()),
    {
        proof {
            mem::lemma_aligned(addr);
        }
        let addr = addr & 0xffff_fffe;
        self.write_byte(addr, value as u8);
        self.write_byte(addr + 1, (value >> 8) as u8);
    }

    pub fn write_word(&mut self, addr: u32, value: u32)
        ensures
            final(self)@ == mem::with_word(old(self)@, addr, value),
            final(self)@.len() == old(self)@.len(),
            valid_sram_size(final(self)@.len()),
    {
        proof {
            mem::lemma_aligned(addr);
        }
        let addr = addr & 0xffff_fffc;
        self.write_byte(addr, value as u8);
        self.write_byte(addr + 1, (value >> 8) as u8);
        self.write_byte(addr + 2, (value >> 16) as u8);
        self.write_byte(addr + 3, (value >> 24) as u8);
    }
}

} // verus!
