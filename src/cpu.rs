use vstd::prelude::*;

use crate::error::Chip8Error;
use crate::instruction::Instruction;
use crate::machine::{
    fetch_spec, initial_memory, initial_state, loaded_memory, tick_spec, MachineState,
    CHIP8_FONT, DISPLAY_SIZE, FONT_ADDRESS, MEMORY_SIZE, START_ADDRESS,
};

verus! {

/// The virtual CPU with its memory, registers, stack, timers, display and
/// keypad.
pub struct Cpu {
    /// Addressable memory; the font lives at `FONT_ADDRESS`, programs from
    /// `START_ADDRESS`.
    pub memory: [u8; MEMORY_SIZE],
    /// Address of the next instruction.
    pub pc: u16,
    /// General-purpose registers; register 15 also receives flags.
    pub v: [u8; 16],
    /// Index register, an address for memory-relative instructions.
    pub i: u16,
    /// Return addresses; slot 0 is never used.
    pub stack: [u16; 16],
    /// Slot of the innermost return address; 0 when no call is active.
    pub sp: usize,
    /// Counts down at 60 Hz.
    pub delay_timer: u8,
    /// Counts down at 60 Hz; the machine beeps while it runs.
    pub sound_timer: u8,
    /// Lit cells of the 64 x 32 display, row-major.
    pub display: [bool; DISPLAY_SIZE],
    /// Pressed keys of the hexadecimal keypad.
    pub keypad: [bool; 16],
    /// Set by a cycle that ticked the timers: the display should be redrawn.
    pub display_updated: bool,
    /// Whether the sound timer was running at the last tick.
    pub should_beep: bool,
    /// Clock reading at the last timer tick.
    pub tick_period: std::time::Instant,
}

impl View for Cpu {
    type V = MachineState;

    open spec fn view(&self) -> MachineState {
        MachineState {
            memory: self.memory@,
            pc: self.pc,
            v: self.v@,
            i: self.i,
            stack: self.stack@,
            sp: self.sp,
            delay_timer: self.delay_timer,
            sound_timer: self.sound_timer,
            display: self.display@,
            keypad: self.keypad@,
            display_updated: self.display_updated,
            should_beep: self.should_beep,
        }
    }
}

impl Cpu {
    /// A machine at power-on: the font in memory, everything else zero,
    /// execution starting at `START_ADDRESS`.
    pub fn new() -> (r: Cpu)
        ensures
            r@ == initial_state(),
    {
        let mut memory: [u8; MEMORY_SIZE] = [0; MEMORY_SIZE];
        let mut k: usize = 0;
        while k < 80
            invariant
                k <= 80,
                forall|a: int|
                    0 <= a < MEMORY_SIZE ==> memory@[a] == if FONT_ADDRESS <= a < FONT_ADDRESS
                        + k {
                        CHIP8_FONT@[a - FONT_ADDRESS]
                    } else {
                        0u8
                    },
            decreases 80 - k,
        {
            memory[FONT_ADDRESS as usize + k] = CHIP8_FONT[k];
            k += 1;
        }
        let r = Cpu {
            memory,
            pc: START_ADDRESS,
            v: [0; 16],
            i: 0,
            stack: [0; 16],
            sp: 0,
            delay_timer: 0,
            sound_timer: 0,
            display: [false; DISPLAY_SIZE],
            keypad: [false; 16],
            display_updated: false,
            should_beep: false,
            tick_period: std::time::Instant::now(),
        };
        assert(r@.memory =~= initial_memory());
        assert(r@.v =~= initial_state().v);
        assert(r@.stack =~= initial_state().stack);
        assert(r@.display =~= initial_state().display);
        assert(r@.keypad =~= initial_state().keypad);
        r
    }

    /// Copies a program to memory from `START_ADDRESS`. A program longer than
    /// the memory above that address is refused and nothing changes.
    pub fn load_rom_in_memory(&mut self, rom_data: &[u8]) -> (r: Result<(), Chip8Error>)
        ensures
            rom_data@.len() <= MEMORY_SIZE - START_ADDRESS ==> r is Ok && final(self)@ == (
            MachineState { memory: loaded_memory(old(self)@.memory, rom_data@), ..old(self)@ }),
            rom_data@.len() > MEMORY_SIZE - START_ADDRESS ==> r == Err::<(), Chip8Error>(
                Chip8Error::RomTooLarge,
            ) && final(self)@ == old(self)@,
    {
        let start: usize = START_ADDRESS as usize;
        if rom_data.len() > MEMORY_SIZE - start {
            return Err(Chip8Error::RomTooLarge);
        }
        let ghost before = self.memory@;
        let mut k: usize = 0;
        while k < rom_data.len()
            invariant
                k <= rom_data@.len() <= MEMORY_SIZE - START_ADDRESS,
                start == START_ADDRESS,
                forall|a: int|
                    0 <= a < MEMORY_SIZE ==> self.memory@[a] == if start <= a < start + k {
                        rom_data@[a - start]
                    } else {
                        before[a]
                    },
                self.pc == old(self).pc,
                self.v == old(self).v,
                self.i == old(self).i,
                self.stack == old(self).stack,
                self.sp == old(self).sp,
                self.delay_timer == old(self).delay_timer,
                self.sound_timer == old(self).sound_timer,
                self.display == old(self).display,
                self.keypad == old(self).keypad,
                self.display_updated == old(self).display_updated,
                self.should_beep == old(self).should_beep,
            decreases rom_data@.len() - k,
        {
            self.memory[start + k] = rom_data[k];
            k += 1;
        }
        assert(self.memory@ =~= loaded_memory(before, rom_data@));
        Ok(())
    }

    /// The display, one flag per cell, row-major.
    pub fn get_display(&self) -> (r: &[bool])
        ensures
            r@ == self.display@,
    {
        self.display.as_slice()
    }

    /// Whether the sound timer was running at the last tick.
    pub fn get_beep_state(&self) -> (r: bool)
        ensures
            r == self.should_beep,
    {
        self.should_beep
    }

    /// Whether the last cycle ticked the timers, so the display should be redrawn.
    pub fn get_display_state(&self) -> (r: bool)
        ensures
            r == self.display_updated,
    {
        self.display_updated
    }

    /// Marks key `idx` pressed or released.
    pub fn set_key(&mut self, idx: usize, pressed: bool)
        requires
            idx < 16,
        ensures
            final(self)@ == (MachineState { keypad: old(self)@.keypad.update(idx as int, pressed), ..old(self)@ }),
    {
        self.keypad[idx] = pressed;
    }

    /// The opcode at `pc`: two bytes, big-endian. The counter is not moved.
    pub fn fetch(&self) -> (r: u16)
        requires
            self.pc + 1 < MEMORY_SIZE,
        ensures
            r == fetch_spec(self@),
    {
        let hi = self.memory[self.pc as usize];
        let lo = self.memory[self.pc as usize + 1];
        (hi as u16) * 256 + lo as u16
    }

    /// One 60 Hz tick: each timer counts down unless it is zero, and the
    /// beep flag records whether the sound timer was running.
    pub fn update_timers(&mut self)
        ensures
            final(self)@ == tick_spec(old(self)@),
    {
        if self.delay_timer > 0 {
            self.delay_timer -= 1;
        }
        if self.sound_timer > 0 {
            self.should_beep = true;
            self.sound_timer -= 1;
        } else {
            self.should_beep = false;
        }
    }
}

} // verus!
