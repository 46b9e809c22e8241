//! The choices a host makes before it starts a machine.

use vstd::prelude::*;

verus! {

/// Window width where the host asks for no other.
pub const DEFAULT_WINDOW_WIDTH: usize = 640;

/// Window height where the host asks for no other.
pub const DEFAULT_WINDOW_HEIGHT: usize = 320;

/// Instructions per second where the host asks for no other speed.
pub const DEFAULT_CPU_SPEED: u64 = 700;

/// Which machine to run. The two share the decoder and differ in how they
/// execute some instructions.
#[derive(PartialEq, Eq, Structural, Clone, Copy, Debug)]
pub enum Variant {
    Chip8,
    Schip,
}

impl Variant {
    /// The name of the variant as the host writes it.
    pub open spec fn spec_name(self) -> Seq<char> {
        match self {
            Variant::Chip8 => "chip8"@,
            Variant::Schip => "schip"@,
        }
    }

    /// The name of the variant as the host writes it: `chip8` or `schip`.
    pub fn name(&self) -> (name: &'static str)
        ensures
            name@ == self.spec_name(),
    {
        match self {
            Variant::Chip8 => "chip8",
            Variant::Schip => "schip",
        }
    }
}

/// What a host is started with.
#[derive(Clone, Debug)]
pub struct Args {
    /// Path to a file that holds a program.
    pub program: String,
    /// The machine to run it on.
    pub variant: Variant,
    /// Window width in pixels.
    pub window_width: usize,
    /// Window height in pixels.
    pub window_height: usize,
    /// Speed of the machine in instructions per second.
    pub cpu_speed: u64,
}

impl Args {
    /// The arguments for `program` where the host chooses nothing else: a
    /// CHIP-8 machine at 700 instructions per second in a window of 640 by
    /// 320 pixels.
    pub fn new(program: String) -> (args: Args)
        ensures
            args.program == program,
            args.variant == Variant::Chip8,
            args.window_width == DEFAULT_WINDOW_WIDTH,
            args.window_height == DEFAULT_WINDOW_HEIGHT,
            args.cpu_speed == DEFAULT_CPU_SPEED,
    {
        Args {
            program,
            variant: Variant::Chip8,
            window_width: DEFAULT_WINDOW_WIDTH,
            window_height: DEFAULT_WINDOW_HEIGHT,
            cpu_speed: DEFAULT_CPU_SPEED,
        }
    }

    /// Tells whether a machine can run at the speed asked for: a speed of
    /// zero has no cycle.
    pub fn speed_is_valid(&self) -> (ok: bool)
        ensures
            ok == (self.cpu_speed > 0),
    {
        self.cpu_speed > 0
    }
}

} // verus!
