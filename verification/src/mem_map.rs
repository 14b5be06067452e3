//! The bus's memory map: which component an address selects.

use vstd::prelude::*;

verus! {

/// The bus decodes 27 address bits.
pub const ADDRESS_MASK: u32 = 0x07ff_ffff;

pub const VIP_START: u32 = 0x0000_0000;
pub const VIP_LENGTH: u32 = 0x0100_0000;
pub const VIP_END: u32 = 0x00ff_ffff;

pub const VSU_START: u32 = 0x0100_0000;
pub const VSU_LENGTH: u32 = 0x0100_0000;
pub const VSU_END: u32 = 0x01ff_ffff;

pub const LINK_CONTROL_REG: u32 = 0x0200_0000;
pub const AUX_LINK_REG: u32 = 0x0200_0004;
pub const LINK_TRANSMIT_DATA_REG: u32 = 0x0200_0008;
pub const LINK_RECEIVE_DATA_REG: u32 = 0x0200_000c;
pub const GAME_PAD_INPUT_LOW_REG: u32 = 0x0200_0010;
pub const GAME_PAD_INPUT_HIGH_REG: u32 = 0x0200_0014;
pub const TIMER_COUNTER_RELOAD_LOW_REG: u32 = 0x0200_0018;
pub const TIMER_COUNTER_RELOAD_HIGH_REG: u32 = 0x0200_001c;
pub const TIMER_CONTROL_REG: u32 = 0x0200_0020;
pub const WAIT_CONTROL_REG: u32 = 0x0200_0024;
pub const GAME_PAD_INPUT_CONTROL_REG: u32 = 0x0200_0028;

pub const CARTRIDGE_EXPANSION_START: u32 = 0x0400_0000;
pub const CARTRIDGE_EXPANSION_LENGTH: u32 = 0x0100_0000;
pub const CARTRIDGE_EXPANSION_END: u32 = 0x04ff_ffff;

pub const WRAM_START: u32 = 0x0500_0000;
pub const WRAM_LENGTH: u32 = 0x0100_0000;
pub const WRAM_END: u32 = 0x05ff_ffff;

pub const CARTRIDGE_RAM_START: u32 = 0x0600_0000;
pub const CARTRIDGE_RAM_LENGTH: u32 = 0x0100_0000;
pub const CARTRIDGE_RAM_END: u32 = 0x06ff_ffff;

pub const CARTRIDGE_ROM_START: u32 = 0x0700_0000;
pub const CARTRIDGE_ROM_LENGTH: u32 = 0x0100_0000;
pub const CARTRIDGE_ROM_END: u32 = 0x07ff_ffff;

/// What an address selects. The regions carry the offset into the region.
#[derive(Clone, Copy, Debug, PartialEq, Eq, Structural)]
pub enum MappedAddress {
    Vip(u32),
    Vsu(u32),
    LinkControlReg,
    AuxLinkReg,
    LinkTransmitDataReg,
    LinkReceiveDataReg,
    GamePadInputLowReg,
    GamePadInputHighReg,
    TimerCounterReloadLowReg,
    TimerCounterReloadHighReg,
    TimerControlReg,
    WaitControlReg,
    GamePadInputControlReg,
    CartridgeExpansion(u32),
    Wram(u32),
    CartridgeRam(u32),
    CartridgeRom(u32),
}

/// An access to an address that nothing is mapped to.
#[derive(Clone, Copy, Debug, PartialEq, Eq, Structural)]
pub struct BusError {
    /// The address, reduced to the 27 bits that the bus decodes.
    pub addr: u32,
}

/// The decoding of an address that is already reduced to 27 bits.
pub open spec fn decode_masked(addr: u32) -> Result<MappedAddress, BusError> {
    if addr <= VIP_END {
        Ok(MappedAddress::Vip(addr))
    } else if addr <= VSU_END {
        Ok(MappedAddress::Vsu((addr - VSU_START) as u32))
    } else if addr == LINK_CONTROL_REG {
        Ok(MappedAddress::LinkControlReg)
    } else if addr == AUX_LINK_REG {
        Ok(MappedAddress::AuxLinkReg)
    } else if addr == LINK_TRANSMIT_DATA_REG {
        Ok(MappedAddress::LinkTransmitDataReg)
    } else if addr == LINK_RECEIVE_DATA_REG {
        Ok(MappedAddress::LinkReceiveDataReg)
    } else if addr == GAME_PAD_INPUT_LOW_REG {
        Ok(MappedAddress::GamePadInputLowReg)
    } else if addr == GAME_PAD_INPUT_HIGH_REG {
        Ok(MappedAddress::GamePadInputHighReg)
    } else if addr == TIMER_COUNTER_RELOAD_LOW_REG {
        Ok(MappedAddress::TimerCounterReloadLowReg)
    } else if addr == TIMER_COUNTER_RELOAD_HIGH_REG {
        Ok(MappedAddress::TimerCounterReloadHighReg)
    } else if addr == TIMER_CONTROL_REG {
        Ok(MappedAddress::TimerControlReg)
    } else if addr == WAIT_CONTROL_REG {
        Ok(MappedAddress::WaitControlReg)
    } else if addr == GAME_PAD_INPUT_CONTROL_REG {
        Ok(MappedAddress::GamePadInputControlReg)
    } else if CARTRIDGE_EXPANSION_START <= addr <= CARTRIDGE_EXPANSION_END {
        Ok(MappedAddress::CartridgeExpansion((addr - CARTRIDGE_EXPANSION_START) as u32))
    } else if WRAM_START <= addr <= WRAM_END {
        Ok(MappedAddress::Wram((addr - WRAM_START) as u32))
    } else if CARTRIDGE_RAM_START <= addr <= CARTRIDGE_RAM_END {
        Ok(MappedAddress::CartridgeRam((addr - CARTRIDGE_RAM_START) as u32))
    } else if CARTRIDGE_ROM_START <= addr <= CARTRIDGE_ROM_END {
        Ok(MappedAddress::CartridgeRom((addr - CARTRIDGE_ROM_START) as u32))
    } else {
        Err(BusError { addr })
    }
}

/// What `addr` selects: the address is reduced to 27 bits, then the region
/// or the register is looked up. Nothing is mapped at an address of the
/// register region that is no register's, nor between that region and the
/// cartridge expansion.
pub open spec fn mapped(addr: u32) -> Result<MappedAddress, BusError> {
    decode_masked(addr & ADDRESS_MASK)
}

/// The largest offset that a mapping into a region carries.
pub const REGION_OFFSET_MAX: u32 = 0x00ff_ffff;

/// The offset that a mapping carries, 0 for a register.
pub open spec fn offset_of(mapping: MappedAddress) -> u32 {
    match mapping {
        MappedAddress::Vip(offset) => offset,
        MappedAddress::Vsu(offset) => offset,
        MappedAddress::CartridgeExpansion(offset) => offset,
        MappedAddress::Wram(offset) => offset,
        MappedAddress::CartridgeRam(offset) => offset,
        MappedAddress::CartridgeRom(offset) => offset,
        _ => 0,
    }
}

/// Decodes a bus address.
pub fn map_address(addr: u32) -> (r: Result<MappedAddress, BusError>)
    ensures
        r == mapped(addr),
        r matches Ok(mapping) ==> offset_of(mapping) <= REGION_OFFSET_MAX,
{
    let addr = addr & ADDRESS_MASK;
    if addr <= VIP_END {
        Ok(MappedAddress::Vip(addr))
    } else if addr <= VSU_END {
        Ok(MappedAddress::Vsu(addr - VSU_START))
    } else if addr >= CARTRIDGE_EXPANSION_START && addr <= CARTRIDGE_EXPANSION_END {
        Ok(MappedAddress::CartridgeExpansion(addr - CARTRIDGE_EXPANSION_START))
    } else if addr >= WRAM_START && addr <= WRAM_END {
        Ok(MappedAddress::Wram(addr - WRAM_START))
    } else if addr >= CARTRIDGE_RAM_START && addr <= CARTRIDGE_RAM_END {
        Ok(MappedAddress::CartridgeRam(addr - CARTRIDGE_RAM_START))
    } else if addr >= CARTRIDGE_ROM_START && addr <= CARTRIDGE_ROM_END {
        Ok(MappedAddress::CartridgeRom(addr - CARTRIDGE_ROM_START))
    } else {
        match addr {
            LINK_CONTROL_REG => Ok(MappedAddress::LinkControlReg),
            AUX_LINK_REG => Ok(MappedAddress::AuxLinkReg),
            LINK_TRANSMIT_DATA_REG => Ok(MappedAddress::LinkTransmitDataReg),
            LINK_RECEIVE_DATA_REG => Ok(MappedAddress::LinkReceiveDataReg),
            GAME_PAD_INPUT_LOW_REG => Ok(MappedAddress::GamePadInputLowReg),
            GAME_PAD_INPUT_HIGH_REG => Ok(MappedAddress::GamePadInputHighReg),
            TIMER_COUNTER_RELOAD_LOW_REG => Ok(MappedAddress::TimerCounterReloadLowReg),
            TIMER_COUNTER_RELOAD_HIGH_REG => Ok(MappedAddress::TimerCounterReloadHighReg),
            TIMER_CONTROL_REG => Ok(MappedAddress::TimerControlReg),
            WAIT_CONTROL_REG => Ok(MappedAddress::WaitControlReg),
            GAME_PAD_INPUT_CONTROL_REG => Ok(MappedAddress::GamePadInputControlReg),
            _ => Err(BusError { addr }),
        }
    }
}

} // verus!
