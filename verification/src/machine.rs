//! What the machine variants have in common beyond registers and memory:
//! reading the keypad, drawing a sprite from memory, and the source of
//! random bytes.

use crate::cpu::{readable, sprite_words, Cpu, CpuState, HostInput};
use crate::instruction::Instruction;
use crate::screen::{blit, collides, Screen, Sprite};
use vstd::prelude::*;

verus! {

/// The first key at or after `from` that is set, if any.
pub open spec fn first_set(keys: Seq<bool>, from: int) -> Option<u8>
    decreases keys.len() - from,
{
    if from < 0 || from >= keys.len() {
        None
    } else if keys[from] {
        Some(from as u8)
    } else {
        first_set(keys, from + 1)
    }
}

/// The lowest key that was released, if any.
pub open spec fn first_released(keys_released: Seq<bool>) -> Option<u8> {
    first_set(keys_released, 0)
}

/// The key register that `instruction` asks about, if it is a key test.
pub open spec fn key_register(instruction: Instruction) -> Option<usize> {
    match instruction {
        Instruction::SkipIfKey { key_register } => Some(key_register),
        Instruction::SkipIfNotKey { key_register } => Some(key_register),
        _ => None,
    }
}

/// Whether the key that `instruction` asks about exists: a key test reads
/// the state of key `V[key_register]`, and there are sixteen keys.
pub open spec fn key_in_range(s: CpuState, instruction: Instruction) -> bool {
    match key_register(instruction) {
        Some(register) => register < 16 && s.variables[register as int] < 16,
        None => true,
    }
}

/// What the host contributes to `instruction`, read off the two key
/// arrays: whether the key asked about is down, and the lowest key that was
/// released.
pub open spec fn key_inputs(
    s: CpuState,
    instruction: Instruction,
    keys_down: Seq<bool>,
    keys_released: Seq<bool>,
    random: u8,
) -> HostInput {
    HostInput {
        key_down: match key_register(instruction) {
            Some(register) => keys_down[s.variables[register as int] as int],
            None => false,
        },
        released: first_released(keys_released),
        random,
    }
}

/// How many lines of a sprite of `lines` lines lie on a screen of `height`
/// rows when its top is at row `y0`.
pub open spec fn visible_lines(lines: int, y0: int, height: int) -> int {
    if lines <= height - y0 {
        lines
    } else {
        height - y0
    }
}

/// Finds the lowest key that was released.
pub fn lowest_released(keys_released: &[bool; 16]) -> (key: Option<u8>)
    ensures
        key == first_released(keys_released@),
{
    let mut k: u8 = 0;
    while k < 16
        invariant
            k <= 16,
            first_released(keys_released@) == first_set(keys_released@, k as int),
        decreases 16 - k,
    {
        if keys_released[k as usize] {
            return Some(k);
        }
        k += 1;
    }
    None
}

/// Reads off the key arrays what `instruction` needs from the host.
pub fn read_keys(
    cpu: &Cpu,
    instruction: &Instruction,
    keys_down: &[bool; 16],
    keys_released: &[bool; 16],
    random: u8,
) -> (host: HostInput)
    requires
        key_in_range(cpu@, *instruction),
    ensures
        host == key_inputs(cpu@, *instruction, keys_down@, keys_released@, random),
{
    let key_down = match *instruction {
        Instruction::SkipIfKey { key_register } => keys_down[cpu.variable(key_register) as usize],
        Instruction::SkipIfNotKey { key_register } => keys_down[cpu.variable(key_register) as usize],
        _ => false,
    };
    HostInput { key_down, released: lowest_released(keys_released), random }
}

/// Draws the sprite of `count` rows at the index register with its corner
/// at row `y0`, column `x0`, and sets the flag register to 1 if it hit a
/// pixel that was on, to 0 if not.
pub fn draw_sprite<const W: usize, const H: usize>(
    cpu: &mut Cpu,
    screen: &mut Screen<W, H>,
    x0: usize,
    y0: usize,
    count: usize,
    wide: bool,
    doubled: bool,
)
    requires
        x0 < W,
        y0 < H,
        readable(
            old(cpu)@,
            if wide {
                2 * count
            } else {
                count as int
            },
        ),
    ensures
        final(screen)@ == blit(
            old(screen)@,
            Sprite { rows: sprite_words(old(cpu)@, count as int, wide), wide, doubled },
            x0 as int,
            y0 as int,
        ),
        final(cpu)@ == old(cpu)@.set_flag(
            if collides(
                old(screen)@,
                Sprite { rows: sprite_words(old(cpu)@, count as int, wide), wide, doubled },
                x0 as int,
                y0 as int,
            ) {
                1
            } else {
                0
            },
        ),
{
    proof {
        cpu.lemma_wf();
    }
    let rows = cpu.sprite_rows(count, wide);
    let hit = screen.draw(x0, y0, &rows, wide, doubled);
    cpu.set_flag(if hit { 1 } else { 0 });
}

/// A byte from the thread-local generator of the `rand` crate
/// (`rand::random::<u8>()`). Nothing is claimed of the byte: every value is
/// possible, and two calls need not agree.
#[verifier::external_body]
pub(crate) fn random_byte() -> (byte: u8) {
    rand::random::<u8>()
}

/// Where no key at or after `from` is set, there is no first one.
pub proof fn first_set_of_none(keys: Seq<bool>, from: int)
    requires
        forall|k: int| from <= k < keys.len() ==> !keys[k],
    ensures
        first_set(keys, from) is None,
    decreases keys.len() - from,
{
    if 0 <= from < keys.len() {
        first_set_of_none(keys, from + 1);
    }
}

/// The first key set at or after `from` is the lowest one that is set.
pub proof fn first_set_is_lowest(keys: Seq<bool>, from: int, key: int)
    requires
        0 <= from <= key < keys.len() <= 256,
        keys[key],
        forall|k: int| from <= k < key ==> !keys[k],
    ensures
        first_set(keys, from) == Some(key as u8),
    decreases key - from,
{
    if from < key {
        first_set_is_lowest(keys, from + 1, key);
    }
}

/// What [`first_released`] finds: `None` exactly where no key was
/// released, and otherwise the lowest key that was.
pub proof fn first_released_is_lowest(keys_released: Seq<bool>)
    requires
        keys_released.len() == 16,
    ensures
        match first_released(keys_released) {
            Some(key) => key < 16 && keys_released[key as int] && forall|k: int|
                0 <= k < key ==> !keys_released[k],
            None => forall|k: int| 0 <= k < 16 ==> !keys_released[k],
        },
{
    if exists|k: int| 0 <= k < 16 && keys_released[k] {
        let some = choose|k: int| 0 <= k < 16 && keys_released[k];
        let lowest = lowest_set(keys_released, some);
        first_set_is_lowest(keys_released, 0, lowest);
    } else {
        first_set_of_none(keys_released, 0);
    }
}

/// The lowest key that is set, given one that is.
proof fn lowest_set(keys: Seq<bool>, some: int) -> (lowest: int)
    requires
        0 <= some < keys.len(),
        keys[some],
    ensures
        0 <= lowest <= some,
        keys[lowest],
        forall|k: int| 0 <= k < lowest ==> !keys[k],
    decreases some,
{
    if exists|k: int| 0 <= k < some && keys[k] {
        let lower = choose|k: int| 0 <= k < some && keys[k];
        lowest_set(keys, lower)
    } else {
        some
    }
}

} // verus!
