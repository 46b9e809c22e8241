//! A CHIP-8 picture as a window shows it: one 32-bit colour per pixel,
//! row after row.

use crate::chip8::{chip8_accepts, chip8_executes, execute_on, Chip8State};
use crate::cpu::{Cpu, HostInput};
use crate::error::InterpreterError;
use crate::instruction::Instruction;
use crate::screen::{blank, shaped, Screen};
use vstd::prelude::*;

verus! {

/// Columns of the picture.
pub const WIDTH: usize = 64;

/// Rows of the picture.
pub const HEIGHT: usize = 32;

/// Pixels of the picture.
pub const PIXELS: usize = 2048;

/// The colour of a pixel that is on; a pixel that is off is 0.
pub const LIT: u32 = 0xffffff;

/// The colour that shows `pixel`.
pub open spec fn colour_of(pixel: u8) -> u32 {
    (pixel as int * LIT as int) as u32
}

/// The colours that show `screen`, row after row.
pub open spec fn rendered(screen: Seq<Seq<u8>>) -> Seq<u32> {
    Seq::new(PIXELS as nat, |i: int| colour_of(screen[i / WIDTH as int][i % WIDTH as int]))
}

/// A display as plain mathematical values: the pixels that the machine
/// draws to, and the colours last brought up to date with them.
#[verifier::ext_equal]
pub struct DisplayState {
    pub screen: Seq<Seq<u8>>,
    pub buffer: Seq<u32>,
}

impl DisplayState {
    /// A blank display.
    pub open spec fn blank() -> DisplayState {
        DisplayState {
            screen: blank(WIDTH as int, HEIGHT as int),
            buffer: Seq::new(PIXELS as nat, |i: int| 0u32),
        }
    }
}

/// The pixels of a CHIP-8 machine, and the colour buffer that a window
/// shows.
pub struct Display {
    screen: Screen<64, 32>,
    buffer: [u32; 2048],
}

impl View for Display {
    type V = DisplayState;

    closed spec fn view(&self) -> DisplayState {
        DisplayState { screen: self.screen@, buffer: self.buffer@ }
    }
}

impl Display {
    /// A blank display.
    pub fn new() -> (display: Display)
        ensures
            display@ == DisplayState::blank(),
    {
        let display = Display { screen: Screen::new(), buffer: [0u32; 2048] };
        assert(display@ =~= DisplayState::blank());
        display
    }

    /// Turns every pixel off, in the picture and in the colour buffer.
    pub fn clear(&mut self)
        ensures
            final(self)@ == DisplayState::blank(),
    {
        self.screen.clear();
        self.buffer = [0u32; 2048];
        assert(self@ =~= DisplayState::blank());
    }

    /// Brings the colour buffer up to date with the pixels.
    pub fn update(&mut self)
        ensures
            final(self)@ == (DisplayState {
                buffer: rendered(old(self)@.screen),
                ..old(self)@
            }),
    {
        proof {
            self.screen.lemma_shaped();
        }
        let mut r: usize = 0;
        while r < HEIGHT
            invariant
                r <= HEIGHT,
                self.screen == old(self).screen,
                forall|i: int| 0 <= i < r * WIDTH ==> self.buffer@[i] == rendered(self.screen@)[i],
            decreases HEIGHT - r,
        {
            let mut c: usize = 0;
            while c < WIDTH
                invariant
                    r < HEIGHT,
                    c <= WIDTH,
                    self.screen == old(self).screen,
                    forall|i: int|
                        0 <= i < r * WIDTH + c ==> self.buffer@[i] == rendered(self.screen@)[i],
                decreases WIDTH - c,
            {
                self.buffer[r * WIDTH + c] = self.screen.pixel(r, c) as u32 * LIT;
                c += 1;
            }
            r += 1;
        }
        assert(self.buffer@ =~= rendered(self.screen@));
    }

    /// Executes `instruction` on `cpu` and the pixels of this display, as a
    /// CHIP-8 machine does. The colour buffer is left alone.
    pub fn execute(&mut self, cpu: &mut Cpu, instruction: Instruction, host: HostInput) -> (done:
        Result<(), InterpreterError>)
        requires
            chip8_accepts(
                Chip8State { cpu: old(cpu)@, screen: old(self)@.screen },
                instruction,
                host,
            ),
        ensures
            chip8_executes(
                Chip8State { cpu: old(cpu)@, screen: old(self)@.screen },
                instruction,
                host,
                Chip8State { cpu: final(cpu)@, screen: final(self)@.screen },
                done,
            ),
            final(self)@.buffer == old(self)@.buffer,
    {
        execute_on(cpu, &mut self.screen, instruction, host)
    }

    /// The model of any display has 64 by 32 pixels and as many colours.
    pub proof fn lemma_shaped(&self)
        ensures
            shaped(self@.screen, WIDTH as int, HEIGHT as int),
            self@.buffer.len() == PIXELS,
    {
        self.screen.lemma_shaped();
    }

    /// The colour buffer, row after row.
    pub fn buffer(&self) -> (buffer: &[u32])
        ensures
            buffer@ == self@.buffer,
    {
        self.buffer.as_slice()
    }

    /// The pixel at row `r`, column `c`.
    pub fn pixel(&self, r: usize, c: usize) -> (value: u8)
        requires
            r < HEIGHT,
            c < WIDTH,
        ensures
            value == self@.screen[r as int][c as int],
    {
        self.screen.pixel(r, c)
    }
}

} // verus!
