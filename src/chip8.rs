use vstd::prelude::*;

use crate::cpu::Cpu;
use crate::error::Chip8Error;
use crate::machine::{
    cycle_outcome, initial_state, loaded_memory, MachineState, MEMORY_SIZE, START_ADDRESS,
};

verus! {

/// The machine as a host drives it: load a program, run cycles, forward key
/// events, and poll the display and beep flags.
pub struct Chip8 {
    cpu: Cpu,
    /// Clock reading at the host's last cycle; the host paces cycles with it.
    pub tick_period: std::time::Instant,
}

impl View for Chip8 {
    type V = MachineState;

    closed spec fn view(&self) -> MachineState {
        self.cpu@
    }
}

impl Chip8 {
    /// A machine at power-on.
    pub fn new() -> (r: Chip8)
        ensures
            r@ == initial_state(),
    {
        Chip8 { cpu: Cpu::new(), tick_period: std::time::Instant::now() }
    }

    /// Copies a program to memory from `START_ADDRESS`; a program longer than
    /// the memory above that address is refused and nothing changes.
    pub fn load_rom(&mut self, rom_data: &[u8]) -> (r: Result<(), Chip8Error>)
        ensures
            rom_data@.len() <= MEMORY_SIZE - START_ADDRESS ==> r is Ok && final(self)@ == (
            MachineState { memory: loaded_memory(old(self)@.memory, rom_data@), ..old(self)@ }),
            rom_data@.len() > MEMORY_SIZE - START_ADDRESS ==> r == Err::<(), Chip8Error>(
                Chip8Error::RomTooLarge,
            ) && final(self)@ == old(self)@,
    {
        self.cpu.load_rom_in_memory(rom_data)
    }

    /// Runs one machine cycle; the timers tick when a 60 Hz period has passed.
    pub fn run(&mut self) -> (r: Result<(), Chip8Error>)
        ensures
            exists|due: bool, rnd: u8| #[trigger]
                cycle_outcome(old(self)@, due, rnd, r, final(self)@),
    {
        let ghost s = self@;
        let r = self.cpu.run();
        proof {
            let (due, rnd) = choose|due: bool, rnd: u8| #[trigger]
                cycle_outcome(s, due, rnd, r, self.cpu@);
            assert(cycle_outcome(s, due, rnd, r, self@));
        }
        r
    }

    /// The display, one flag per cell, row-major.
    pub fn get_display(&self) -> (r: &[bool])
        ensures
            r@ == self@.display,
    {
        self.cpu.get_display()
    }

    /// Whether the sound timer was running at the last tick.
    pub fn get_beep_state(&self) -> (r: bool)
        ensures
            r == self@.should_beep,
    {
        self.cpu.get_beep_state()
    }

    /// Whether the last cycle ticked the timers, so the display should be redrawn.
    pub fn get_display_state(&self) -> (r: bool)
        ensures
            r == self@.display_updated,
    {
        self.cpu.get_display_state()
    }

    /// Marks key `keypad_idx` pressed.
    pub fn press_key(&mut self, keypad_idx: usize)
        requires
            keypad_idx < 16,
        ensures
            final(self)@ == (MachineState { keypad: old(self)@.keypad.update(keypad_idx as int, true), ..old(self)@ }),
    {
        self.cpu.set_key(keypad_idx, true);
    }

    /// Marks key `keypad_idx` released.
    pub fn release_key(&mut self, keypad_idx: usize)
        requires
            keypad_idx < 16,
        ensures
            final(self)@ == (MachineState { keypad: old(self)@.keypad.update(keypad_idx as int, false), ..old(self)@ }),
    {
        self.cpu.set_key(keypad_idx, false);
    }
}

} // verus!
