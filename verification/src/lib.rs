//! A cycle-driven core for a stereoscopic handheld console built around a
//! V810-class CPU: the CPU with its instruction decoder, the bus with its
//! memory map, the programmable timer, the video image processor with its
//! rasterizer, the sound unit, and what a host's loop and debugger decide.
//!
//! The core works on integers alone. Of a floating-point instruction it
//! checks the operands, as bit patterns, and decides what the result does
//! to the registers and the flags; the arithmetic itself is left to a float
//! unit of the host, which answers between two steps.
//!
//! Every component advances by an integer number of CPU cycles (50 ns each),
//! and its behaviour is stated over a mathematical view of its state: the
//! same cycles always lead to the same state, the same pixels and the same
//! audio frames, however the host splits them up.

pub mod argparse;
pub mod bits;
pub mod command;
pub mod disassembler;
pub mod emulator;
pub mod game_pad;
pub mod instruction;
pub mod interconnect;
pub mod link_port;
pub mod mem;
pub mod mem_map;
pub mod nvc;
pub mod rom;
pub mod sinks;
pub mod sram;
pub mod timer;
pub mod vip;
pub mod virtual_boy;
pub mod vsu;
pub mod wram;
