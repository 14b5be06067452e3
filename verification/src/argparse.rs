//! What the command line configures.

use vstd::prelude::*;
use vstd::string::StrSliceExecFns;
use vstd::string::StringExecFns;

verus! {

pub struct CommandLineConfig {
    pub rom_path: String,
    pub sram_path: String,
}

/// Whether `.vb` stands at a position of a path.
pub open spec fn has_rom_extension(path: Seq<char>, at: int) -> bool {
    &&& 0 <= at
    &&& at + 3 <= path.len()
    &&& path[at] as u32 == 0x2e
    &&& path[at + 1] as u32 == 0x76
    &&& path[at + 2] as u32 == 0x62
}

/// The rest of a path from a position on, with every `.vb` replaced by
/// `.srm`, from the left.
pub open spec fn with_sram_extension(path: Seq<char>, from: int) -> Seq<char>
    decreases path.len() - from,
{
    if from < 0 || from >= path.len() {
        Seq::empty()
    } else if has_rom_extension(path, from) {
        ".srm"@ + with_sram_extension(path, from + 3)
    } else {
        seq![path[from]] + with_sram_extension(path, from + 1)
    }
}

/// The path of the cartridge RAM that belongs to a ROM, where none is
/// given: the ROM's path with every `.vb` replaced by `.srm`.
pub open spec fn sram_path_for(rom_path: Seq<char>) -> Seq<char> {
    with_sram_extension(rom_path, 0)
}

/// The path of the cartridge RAM that belongs to a ROM.
pub fn default_sram_path(rom_path: &str) -> (sram_path: String)
    ensures
        sram_path@ == sram_path_for(rom_path@),
{
    let length = rom_path.unicode_len();
    let mut sram_path = String::new();
    let mut copied: usize = 0;
    let mut at: usize = 0;
    assert(sram_path@ + rom_path@.subrange(0, 0) + with_sram_extension(rom_path@, 0)
        =~= sram_path_for(rom_path@));
    while at < length
        invariant
            length == rom_path@.len(),
            copied <= at <= length,
            sram_path@ + rom_path@.subrange(copied as int, at as int) + with_sram_extension(
                rom_path@,
                at as int,
            ) == sram_path_for(rom_path@),
        decreases length - at,
    {
        let ghost before = sram_path@;
        let ghost pending = rom_path@.subrange(copied as int, at as int);
        let fits = length - at >= 3 && rom_path.get_char(at) as u32 == 0x2e && rom_path.get_char(
            at + 1,
        ) as u32 == 0x76 && rom_path.get_char(at + 2) as u32 == 0x62;
        if fits {
            sram_path.append(rom_path.substring_char(copied, at));
            sram_path.append(".srm");
            proof {
                let rest = with_sram_extension(rom_path@, at + 3);
                assert((before + pending) + ".srm"@ + rom_path@.subrange(at + 3, at + 3) + rest
                    =~= before + pending + (".srm"@ + rest));
            }
            at = at + 3;
            copied = at;
        } else {
            proof {
                let rest = with_sram_extension(rom_path@, at + 1);
                assert(before + rom_path@.subrange(copied as int, at + 1) + rest =~= before
                    + pending + (seq![rom_path@[at as int]] + rest));
            }
            at = at + 1;
        }
    }
    sram_path.append(rom_path.substring_char(copied, at));
    assert(sram_path@ =~= sram_path_for(rom_path@));
    sram_path
}

impl CommandLineConfig {
    /// The configuration for a ROM and, where one is given, a cartridge RAM;
    /// where none is given, the cartridge RAM lies beside the ROM.
    pub fn new(rom_path: String, sram_path: Option<String>) -> (config: CommandLineConfig)
        ensures
            config.rom_path@ == rom_path@,
            config.sram_path@ == (match sram_path {
                Some(path) => path@,
                None => sram_path_for(rom_path@),
            }),
    {
        let sram_path = match sram_path {
            Some(path) => path,
            None => default_sram_path(rom_path.as_str()),
        };
        CommandLineConfig { rom_path, sram_path }
    }
}

} // verus!
