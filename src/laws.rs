use vstd::prelude::*;

use crate::error::Chip8Error;
use crate::instruction::{decode_spec, Instruction};
use crate::machine::{
    cycle_spec, fetch_spec, first_pressed, first_pressed_from, loaded_memory, tick_spec,
    MachineState, MEMORY_SIZE, START_ADDRESS,
};

verus! {

/// The state after running one cycle per input (a timer flag and a random
/// byte), or the first error.
pub open spec fn run_cycles(s: MachineState, inputs: Seq<(bool, u8)>) -> Result<
    MachineState,
    Chip8Error,
>
    decreases inputs.len(),
{
    if inputs.len() == 0 {
        Ok(s)
    } else {
        match cycle_spec(s, inputs[0].0, inputs[0].1) {
            Ok(t) => run_cycles(t, inputs.drop_first()),
            Err(e) => Err(e),
        }
    }
}

/// The state after `n` timer ticks.
pub open spec fn ticks(s: MachineState, n: nat) -> MachineState
    decreases n,
{
    if n == 0 {
        s
    } else {
        tick_spec(ticks(s, (n - 1) as nat))
    }
}

/// Whether the opcode at `pc` is a key wait.
pub open spec fn at_key_wait(s: MachineState) -> bool {
    &&& s.pc + 1 < MEMORY_SIZE
    &&& decode_spec(fetch_spec(s)) matches Some(ins) && ins is WaitKey
}

/// Loading a program that fits puts its bytes, in order, at `START_ADDRESS`
/// and leaves every other byte of memory as it was.
pub proof fn lemma_load_round_trip(memory: Seq<u8>, rom: Seq<u8>)
    requires
        memory.len() == MEMORY_SIZE,
        rom.len() <= MEMORY_SIZE - START_ADDRESS,
    ensures
        loaded_memory(memory, rom).len() == MEMORY_SIZE,
        loaded_memory(memory, rom).subrange(
            START_ADDRESS as int,
            START_ADDRESS + rom.len(),
        ) == rom,
        forall|a: int|
            0 <= a < MEMORY_SIZE && !(START_ADDRESS <= a < START_ADDRESS + rom.len())
                ==> loaded_memory(memory, rom)[a] == memory[a],
{
    assert(loaded_memory(memory, rom).subrange(START_ADDRESS as int, START_ADDRESS + rom.len())
        =~= rom);
}

/// The lowest pressed key is pressed and no key below it is.
proof fn lemma_first_pressed_from(keys: Seq<bool>, k: int)
    requires
        0 <= k <= 16,
    ensures
        k <= first_pressed_from(keys, k) <= 16,
        first_pressed_from(keys, k) < 16 ==> keys[first_pressed_from(keys, k)],
        forall|j: int| k <= j < first_pressed_from(keys, k) ==> !keys[j],
    decreases 16 - k,
{
    if k < 16 && !keys[k] {
        lemma_first_pressed_from(keys, k + 1);
    }
}

/// With no key pressed, a key-wait instruction holds the machine in place:
/// any number of cycles succeeds and leaves the program counter, the
/// registers, memory and the keypad as they were.
pub proof fn lemma_key_wait_spins(s: MachineState, inputs: Seq<(bool, u8)>)
    requires
        s.wf(),
        at_key_wait(s),
        forall|k: int| 0 <= k < 16 ==> !s.keypad[k],
    ensures
        run_cycles(s, inputs) matches Ok(t) && t.pc == s.pc && t.v == s.v && t.memory
            == s.memory && t.keypad == s.keypad,
    decreases inputs.len(),
{
    lemma_first_pressed_from(s.keypad, 0);
    if inputs.len() > 0 {
        let t = cycle_spec(s, inputs[0].0, inputs[0].1)->Ok_0;
        assert(cycle_spec(s, inputs[0].0, inputs[0].1) is Ok);
        assert(t.pc == s.pc && t.v == s.v && t.memory == s.memory && t.keypad == s.keypad);
        assert(fetch_spec(t) == fetch_spec(s));
        lemma_key_wait_spins(t, inputs.drop_first());
    }
}

/// Once a key is pressed, one cycle on a key-wait instruction stores the
/// lowest pressed key in the target register and moves on to the next
/// instruction.
pub proof fn lemma_key_wait_resumes(s: MachineState, x: usize, due: bool, rnd: u8)
    requires
        s.wf(),
        s.pc + 1 < MEMORY_SIZE,
        decode_spec(fetch_spec(s)) == Some(Instruction::WaitKey { x }),
        exists|k: int| 0 <= k < 16 && s.keypad[k],
    ensures
        cycle_spec(s, due, rnd) matches Ok(t) && t.pc == s.pc + 2 && t.v == s.v.update(
            x as int,
            first_pressed(s.keypad) as u8,
        ),
        0 <= first_pressed(s.keypad) < 16,
        s.keypad[first_pressed(s.keypad)],
        forall|j: int| 0 <= j < first_pressed(s.keypad) ==> !s.keypad[j],
{
    lemma_first_pressed_from(s.keypad, 0);
    let k = choose|k: int| 0 <= k < 16 && s.keypad[k];
    assert(first_pressed(s.keypad) <= k);
}

/// After `n` ticks each timer has counted down by `n`, stopping at zero, and
/// the beep flag (for `n > 0`) tells whether the sound timer was still
/// running at the last tick.
pub proof fn lemma_timer_ticks(s: MachineState, n: nat)
    ensures
        ticks(s, n).delay_timer == if s.delay_timer >= n { s.delay_timer - n } else { 0 },
        ticks(s, n).sound_timer == if s.sound_timer >= n { s.sound_timer - n } else { 0 },
        n > 0 ==> ticks(s, n).should_beep == (s.sound_timer >= n),
    decreases n,
{
    if n > 0 {
        lemma_timer_ticks(s, (n - 1) as nat);
    }
}

} // verus!
