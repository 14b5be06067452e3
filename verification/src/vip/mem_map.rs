//! Address decoding inside the video image processor's region.

use vstd::prelude::*;

verus! {

pub const VRAM_START: u32 = 0x0000_0000;
pub const VRAM_LENGTH: u32 = 0x0004_0000;
pub const VRAM_END: u32 = 0x0003_ffff;

pub const WINDOW_ATTRIBS_START: u32 = 0x0003_d800;
pub const WINDOW_ATTRIBS_END: u32 = 0x0003_dbff;

pub const OBJ_ATTRIBS_START: u32 = 0x0003_e000;

pub const INTERRUPT_PENDING_REG: u32 = 0x0005_f800;
pub const INTERRUPT_ENABLE_REG: u32 = 0x0005_f802;
pub const INTERRUPT_CLEAR_REG: u32 = 0x0005_f804;
pub const DISPLAY_CONTROL_READ_REG: u32 = 0x0005_f820;
pub const DISPLAY_CONTROL_WRITE_REG: u32 = 0x0005_f822;
pub const LED_BRIGHTNESS_1_REG: u32 = 0x0005_f824;
pub const LED_BRIGHTNESS_2_REG: u32 = 0x0005_f826;
pub const LED_BRIGHTNESS_3_REG: u32 = 0x0005_f828;
pub const LED_BRIGHTNESS_IDLE_REG: u32 = 0x0005_f82a;
pub const GAME_FRAME_CONTROL_REG: u32 = 0x0005_f82e;
pub const DRAWING_CONTROL_READ_REG: u32 = 0x0005_f840;
pub const DRAWING_CONTROL_WRITE_REG: u32 = 0x0005_f842;
pub const OBJ_GROUP_0_POINTER_REG: u32 = 0x0005_f848;
pub const OBJ_GROUP_1_POINTER_REG: u32 = 0x0005_f84a;
pub const OBJ_GROUP_2_POINTER_REG: u32 = 0x0005_f84c;
pub const OBJ_GROUP_3_POINTER_REG: u32 = 0x0005_f84e;
pub const BG_PALETTE_0_REG: u32 = 0x0005_f860;
pub const BG_PALETTE_1_REG: u32 = 0x0005_f862;
pub const BG_PALETTE_2_REG: u32 = 0x0005_f864;
pub const BG_PALETTE_3_REG: u32 = 0x0005_f866;
pub const OBJ_PALETTE_0_REG: u32 = 0x0005_f868;
pub const OBJ_PALETTE_1_REG: u32 = 0x0005_f86a;
pub const OBJ_PALETTE_2_REG: u32 = 0x0005_f86c;
pub const OBJ_PALETTE_3_REG: u32 = 0x0005_f86e;
pub const CLEAR_COLOR_REG: u32 = 0x0005_f870;

/// The processor's memory map repeats every 512 KiB of its region.
pub const ADDRESS_MASK: u32 = 0x0007_ffff;

/// What an address inside the processor's region selects.
#[derive(Clone, Copy, Debug, PartialEq, Eq, Structural)]
pub enum MappedAddress {
    InterruptPendingReg,
    InterruptEnableReg,
    InterruptClearReg,
    DisplayControlReadReg,
    DisplayControlWriteReg,
    LedBrightness1Reg,
    LedBrightness2Reg,
    LedBrightness3Reg,
    LedBrightnessIdleReg,
    GameFrameControlReg,
    DrawingControlReadReg,
    DrawingControlWriteReg,
    ObjGroup0PointerReg,
    ObjGroup1PointerReg,
    ObjGroup2PointerReg,
    ObjGroup3PointerReg,
    BgPalette0Reg,
    BgPalette1Reg,
    BgPalette2Reg,
    BgPalette3Reg,
    ObjPalette0Reg,
    ObjPalette1Reg,
    ObjPalette2Reg,
    ObjPalette3Reg,
    ClearColorReg,
    /// A byte of video memory, by its offset.
    Vram(u32),
    /// Nothing is mapped there; the masked address is kept.
    Unrecognized(u32),
}

/// The decoding of an address that is already masked to the 512 KiB map.
pub open spec fn decode_masked(addr: u32) -> MappedAddress {
    if addr <= VRAM_END {
        MappedAddress::Vram(addr)
    } else if addr == INTERRUPT_PENDING_REG {
        MappedAddress::InterruptPendingReg
    } else if addr == INTERRUPT_ENABLE_REG {
        MappedAddress::InterruptEnableReg
    } else if addr == INTERRUPT_CLEAR_REG {
        MappedAddress::InterruptClearReg
    } else if addr == DISPLAY_CONTROL_READ_REG {
        MappedAddress::DisplayControlReadReg
    } else if addr == DISPLAY_CONTROL_WRITE_REG {
        MappedAddress::DisplayControlWriteReg
    } else if addr == LED_BRIGHTNESS_1_REG {
        MappedAddress::LedBrightness1Reg
    } else if addr == LED_BRIGHTNESS_2_REG {
        MappedAddress::LedBrightness2Reg
    } else if addr == LED_BRIGHTNESS_3_REG {
        MappedAddress::LedBrightness3Reg
    } else if addr == LED_BRIGHTNESS_IDLE_REG {
        MappedAddress::LedBrightnessIdleReg
    } else if addr == GAME_FRAME_CONTROL_REG {
        MappedAddress::GameFrameControlReg
    } else if addr == DRAWING_CONTROL_READ_REG {
        MappedAddress::DrawingControlReadReg
    } else if addr == DRAWING_CONTROL_WRITE_REG {
        MappedAddress::DrawingControlWriteReg
    } else if addr == OBJ_GROUP_0_POINTER_REG {
        MappedAddress::ObjGroup0PointerReg
    } else if addr == OBJ_GROUP_1_POINTER_REG {
        MappedAddress::ObjGroup1PointerReg
    } else if addr == OBJ_GROUP_2_POINTER_REG {
        MappedAddress::ObjGroup2PointerReg
    } else if addr == OBJ_GROUP_3_POINTER_REG {
        MappedAddress::ObjGroup3PointerReg
    } else if addr == BG_PALETTE_0_REG {
        MappedAddress::BgPalette0Reg
    } else if addr == BG_PALETTE_1_REG {
        MappedAddress::BgPalette1Reg
    } else if addr == BG_PALETTE_2_REG {
        MappedAddress::BgPalette2Reg
    } else if addr == BG_PALETTE_3_REG {
        MappedAddress::BgPalette3Reg
    } else if addr == OBJ_PALETTE_0_REG {
        MappedAddress::ObjPalette0Reg
    } else if addr == OBJ_PALETTE_1_REG {
        MappedAddress::ObjPalette1Reg
    } else if addr == OBJ_PALETTE_2_REG {
        MappedAddress::ObjPalette2Reg
    } else if addr == OBJ_PALETTE_3_REG {
        MappedAddress::ObjPalette3Reg
    } else if addr == CLEAR_COLOR_REG {
        MappedAddress::ClearColorReg
    } else {
        MappedAddress::Unrecognized(addr)
    }
}

/// What `addr` selects: the address is reduced to the 512 KiB map first.
pub open spec fn mapped(addr: u32) -> MappedAddress {
    decode_masked(addr & ADDRESS_MASK)
}

/// Decodes an address of the processor's region.
pub fn map_address(addr: u32) -> (r: MappedAddress)
    ensures
        r == mapped(addr),
        r matches MappedAddress::Vram(offset) ==> offset < VRAM_LENGTH,
        r matches MappedAddress::Unrecognized(a) ==> a == addr & ADDRESS_MASK,
{
    let addr = addr & ADDRESS_MASK;
    if addr <= VRAM_END {
        MappedAddress::Vram(addr)
    } else {
        match addr {
            INTERRUPT_PENDING_REG => MappedAddress::InterruptPendingReg,
            INTERRUPT_ENABLE_REG => MappedAddress::InterruptEnableReg,
            INTERRUPT_CLEAR_REG => MappedAddress::InterruptClearReg,
            DISPLAY_CONTROL_READ_REG => MappedAddress::DisplayControlReadReg,
            DISPLAY_CONTROL_WRITE_REG => MappedAddress::DisplayControlWriteReg,
            LED_BRIGHTNESS_1_REG => MappedAddress::LedBrightness1Reg,
            LED_BRIGHTNESS_2_REG => MappedAddress::LedBrightness2Reg,
            LED_BRIGHTNESS_3_REG => MappedAddress::LedBrightness3Reg,
            LED_BRIGHTNESS_IDLE_REG => MappedAddress::LedBrightnessIdleReg,
            GAME_FRAME_CONTROL_REG => MappedAddress::GameFrameControlReg,
            DRAWING_CONTROL_READ_REG => MappedAddress::DrawingControlReadReg,
            DRAWING_CONTROL_WRITE_REG => MappedAddress::DrawingControlWriteReg,
            OBJ_GROUP_0_POINTER_REG => MappedAddress::ObjGroup0PointerReg,
            OBJ_GROUP_1_POINTER_REG => MappedAddress::ObjGroup1PointerReg,
            OBJ_GROUP_2_POINTER_REG => MappedAddress::ObjGroup2PointerReg,
            OBJ_GROUP_3_POINTER_REG => MappedAddress::ObjGroup3PointerReg,
            BG_PALETTE_0_REG => MappedAddress::BgPalette0Reg,
            BG_PALETTE_1_REG => MappedAddress::BgPalette1Reg,
            BG_PALETTE_2_REG => MappedAddress::BgPalette2Reg,
            BG_PALETTE_3_REG => MappedAddress::BgPalette3Reg,
            OBJ_PALETTE_0_REG => MappedAddress::ObjPalette0Reg,
            OBJ_PALETTE_1_REG => MappedAddress::ObjPalette1Reg,
            OBJ_PALETTE_2_REG => MappedAddress::ObjPalette2Reg,
            OBJ_PALETTE_3_REG => MappedAddress::ObjPalette3Reg,
            CLEAR_COLOR_REG => MappedAddress::ClearColorReg,
            _ => MappedAddress::Unrecognized(addr),
        }
    }
}

} // verus!
