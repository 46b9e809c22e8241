//! A CHIP-8 and SUPERCHIP virtual machine: opcode decoding, the execution
//! semantics of both machine variants, their framebuffers, and the pacing of
//! a frame.

pub mod args;
pub mod chip8;
pub mod cpu;
pub mod display;
pub mod error;
pub mod font;
pub mod instruction;
pub mod keypad;
pub mod machine;
pub mod operation;
pub mod pacer;
pub mod program;
pub mod schip;
pub mod screen;
pub mod state;
pub mod superchip;
pub mod window;
