//! The cartridge ROM: a read-only byte store that mirrors itself through its
//! 16 MiB region.

use vstd::prelude::*;
use crate::mem;

verus! {

pub const MIN_ROM_SIZE: usize = 0x0000_0400;
pub const MAX_ROM_SIZE: usize = 0x0100_0000;

/// The sizes a ROM image can have: the powers of two from 1 KiB to 16 MiB,
/// which are the sizes of at least 1 KiB that divide the region evenly.
pub open spec fn valid_rom_size(size: nat) -> bool {
    MIN_ROM_SIZE <= size <= MAX_ROM_SIZE && MAX_ROM_SIZE as nat % size == 0
}

/// Where the header lies, counted back from the end of the image.
pub const HEADER_DISTANCE_FROM_END: usize = 0x0220;

/// The bytes of the game's name, which the header starts with.
pub const NAME_LENGTH: usize = 20;

/// Where the maker's code lies in the header, and its length. The header is
/// 32 bytes long: it starts with the name and ends with the maker's code,
/// the game's code and the version.
pub const MAKER_CODE_OFFSET: usize = 0x17;

pub const MAKER_CODE_LENGTH: usize = 4;

/// Where the game's code lies in the header, and its length.
pub const GAME_CODE_OFFSET: usize = 0x1b;

pub const GAME_CODE_LENGTH: usize = 4;

/// Where the byte of the game's version lies in the header: the last one.
pub const GAME_VERSION_OFFSET: usize = 0x1f;

/// The text that a sequence of bytes is in Shift-JIS, if it is valid
/// Shift-JIS.
pub uninterp spec fn shift_jis_text(bytes: Seq<u8>) -> Option<Seq<char>>;

/// Decodes Shift-JIS with `encoding::all::WINDOWS_31J.decode` and the strict
/// decoder trap, which refuses invalid input. The contract claims only that
/// the outcome is a function of the bytes: the same bytes decode to the same
/// text, or are refused, every time.
#[verifier::external_body]
fn decode_shift_jis(bytes: &Vec<u8>) -> (r: Option<String>)
    ensures
        match shift_jis_text(bytes@) {
            Some(text) => r matches Some(s) && s@ == text,
            None => r is None,
        },
{
    encoding::Encoding::decode(
        encoding::all::WINDOWS_31J,
        bytes.as_slice(),
        encoding::DecoderTrap::Strict,
    ).ok()
}

pub struct Rom {
    bytes: Vec<u8>,
}

impl View for Rom {
    type V = Seq<u8>;

    closed spec fn view(&self) -> Seq<u8> {
        self.bytes@
    }
}

impl Rom {
    #[verifier::type_invariant]
    spec fn inv(self) -> bool {
        valid_rom_size(self.bytes@.len())
    }

    /// Makes a ROM of an image, if the image has a valid size.
    pub fn new(bytes: Vec<u8>) -> (r: Option<Rom>)
        ensures
            r is Some <==> valid_rom_size(bytes@.len()),
            r matches Some(rom) ==> rom@ == bytes@,
    {
        let size = bytes.len();
        if size < MIN_ROM_SIZE || size > MAX_ROM_SIZE || MAX_ROM_SIZE % size != 0 {
            None
        } else {
            Some(Rom { bytes })
        }
    }

    pub fn size(&self) -> (r: usize)
        ensures
            r == self@.len(),
            valid_rom_size(self@.len()),
    {
        proof {
            use_type_invariant(self);
        }
        self.bytes.len()
    }

    pub fn read_byte(&self, addr: u32) -> (r: u8)
        ensures
            r == mem::byte_at(self@, addr),
    {
        proof {
            use_type_invariant(self);
        }
        mem::read_byte(&self.bytes, addr)
    }

    pub fn read_halfword(&self, addr: u32) -> (r: u16)
        ensures
            r == mem::halfword_at(self@, addr),
    {
        proof {
            use_type_invariant(self);
        }
        mem::read_halfword(&self.bytes, addr)
    }

    pub fn read_word(&self, addr: u32) -> (r: u32)
        ensures
            r == mem::word_at(self@, addr),
    {
        proof {
            use_type_invariant(self);
        }
        mem::read_word(&self.bytes, addr)
    }

    /// The bytes of a field of the header: `length` bytes, `offset` bytes
    /// into the header.
    pub open spec fn header_field(rom: Seq<u8>, offset: int, length: int) -> Seq<u8> {
        rom.subrange(
            rom.len() - HEADER_DISTANCE_FROM_END + offset,
            rom.len() - HEADER_DISTANCE_FROM_END + offset + length,
        )
    }

    /// The twenty bytes of the game's name, as the header holds them.
    pub open spec fn name_bytes(rom: Seq<u8>) -> Seq<u8> {
        Rom::header_field(rom, 0, NAME_LENGTH as int)
    }

    fn read_header_field(&self, offset: usize, length: usize) -> (field: Vec<u8>)
        requires
            offset + length <= HEADER_DISTANCE_FROM_END,
        ensures
            field@ == Rom::header_field(self@, offset as int, length as int),
    {
        proof {
            use_type_invariant(self);
        }
        let start: usize = self.bytes.len() - HEADER_DISTANCE_FROM_END + offset;
        let mut field: Vec<u8> = Vec::with_capacity(length);
        let mut i: usize = 0;
        while i < length
            invariant
                i <= length,
                start + length <= self.bytes.len(),
                field.len() == i,
                forall|j: int| 0 <= j < i ==> field@[j] == self.bytes@[start + j],
            decreases length - i,
        {
            field.push(self.bytes[start + i]);
            i = i + 1;
        }
        assert(field@ =~= Rom::header_field(self@, offset as int, length as int));
        field
    }

    /// The game's name: the twenty bytes at the start of the header, read as
    /// Shift-JIS; none where they are no valid Shift-JIS.
    pub fn name(&self) -> (r: Option<String>)
        ensures
            match shift_jis_text(Rom::name_bytes(self@)) {
                Some(text) => r matches Some(s) && s@ == text,
                None => r is None,
            },
    {
        let name = self.read_header_field(0, NAME_LENGTH);
        decode_shift_jis(&name)
    }

    /// The four bytes of the maker's code, which the game's code follows.
    pub fn maker_code(&self) -> (code: Vec<u8>)
        ensures
            code@ == Rom::header_field(self@, MAKER_CODE_OFFSET as int, MAKER_CODE_LENGTH as int),
    {
        self.read_header_field(MAKER_CODE_OFFSET, MAKER_CODE_LENGTH)
    }

    /// The four bytes of the game's code, which the version follows.
    pub fn game_code(&self) -> (code: Vec<u8>)
        ensures
            code@ == Rom::header_field(self@, GAME_CODE_OFFSET as int, GAME_CODE_LENGTH as int),
    {
        self.read_header_field(GAME_CODE_OFFSET, GAME_CODE_LENGTH)
    }

    /// The byte of the game's version, the last byte of the header.
    pub fn game_version_byte(&self) -> (version: u8)
        ensures
            version == self@[self@.len() - HEADER_DISTANCE_FROM_END + GAME_VERSION_OFFSET],
    {
        proof {
            use_type_invariant(self);
        }
        self.bytes[self.bytes.len() - HEADER_DISTANCE_FROM_END + GAME_VERSION_OFFSET]
    }
}

} // verus!
