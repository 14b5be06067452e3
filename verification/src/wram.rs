//! Work RAM: 64 KiB that mirror through a 16 MiB region.

use vstd::prelude::*;
use crate::mem;

verus! {

pub const WRAM_SIZE: usize = 0x0001_0000;

pub struct Wram {
    bytes: Vec<u8>,
}

impl View for Wram {
    type V = Seq<u8>;

    closed spec fn view(&self) -> Seq<u8> {
        self.bytes@
    }
}

impl Wram {
    #[verifier::type_invariant]
    spec fn inv(self) -> bool {
        self.bytes@.len() == WRAM_SIZE
    }

    /// Work RAM after power-on: all ones.
    pub fn new() -> (wram: Wram)
        ensures
            wram@ == Seq::new(WRAM_SIZE as nat, |i: int| 0xffu8),
    {
        let bytes = vec![0xffu8; WRAM_SIZE];
        assert(bytes@ =~= Seq::new(WRAM_SIZE as nat, |i: int| 0xffu8));
        Wram { bytes }
    }

    pub fn read_byte(&self, addr: u32) -> (r: u8)
        ensures
            r == mem::byte_at(self@, addr),
            self@.len() == WRAM_SIZE,
    {
        proof {
            use_type_invariant(self);
        }
        mem::read_byte(&self.bytes, addr)
    }

    pub fn read_halfword(&self, addr: u32) -> (r: u16)
        ensures
            r == mem::halfword_at(self@, addr),
            self@.len() == WRAM_SIZE,
    {
        proof {
            use_type_invariant(self);
        }
        mem::read_halfword(&self.bytes, addr)
    }

    pub fn read_word(&self, addr: u32) -> (r: u32)
        ensures
            r == mem::word_at(self@, addr),
            self@.len() == WRAM_SIZE,
    {
        proof {
            use_type_invariant(self);
        }
        mem::read_word(&self.bytes, addr)
    }

    pub fn write_byte(&mut self, addr: u32, value: u8)
        ensures
            final(self)@ == mem::with_byte(old(self)@, addr, value),
            final(self)@.len() == WRAM_SIZE,
    {
        proof {
            use_type_invariant(&*self);
        }
        let index = addr as usize % self.bytes.len();
        self.bytes[index] = value;
    }

    pub fn write_halfword(&mut self, addr: u32, value: u16)
        ensures
            final(self)@ == mem::with_halfword(old(self)@, addr, value),
            final(self)@.len() == WRAM_SIZE,
    {
        proof {
            mem::lemma_aligned(addr);
        }
        let addr = addr & 0xffff_fffe;
        self.write_byte(addr, value as u8);
        self.write_byte(addr + 1, (value >> 8) as u8);
    }

    pub fn write_word(&mut self, addr: u32, value: u32)
        ensures
            final(self)@ == mem::with_word(old(self)@, addr, value),
            final(self)@.len() == WRAM_SIZE,
    {
        proof {
            mem::lemma_aligned(addr);
        }
        let addr = addr & 0xffff_fffc;
        self.write_byte(addr, value as u8);
        self.write_byte(addr + 1, (value >> 8) as u8);
        self.write_byte(addr + 2, (value >> 16) as u8);
        self.write_byte(addr + 3, (value >> 24) as u8);
    }
}

} // verus!
