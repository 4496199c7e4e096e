use vstd::prelude::*;

use crate::error::Chip8Error;
use crate::instruction::{decode_spec, Instruction};

verus! {

/// Bytes of addressable memory.
pub const MEMORY_SIZE: usize = 4096;

/// Width of the display in cells.
pub const DISPLAY_WIDTH: usize = 64;

/// Height of the display in cells.
pub const DISPLAY_HEIGHT: usize = 32;

/// Cells of the display, row-major.
pub const DISPLAY_SIZE: usize = 2048;

/// Address at which programs are loaded and execution starts.
pub const START_ADDRESS: u16 = 0x200;

/// Address of the built-in hexadecimal font.
pub const FONT_ADDRESS: u16 = 0x50;

/// The hexadecimal digits 0 to F, five rows of one byte each.
pub const CHIP8_FONT: [u8; 80] = [
    0xF0, 0x90, 0x90, 0x90, 0xF0, 0x20, 0x60, 0x20, 0x20, 0x70,
    0xF0, 0x10, 0xF0, 0x80, 0xF0, 0xF0, 0x10, 0xF0, 0x10, 0xF0,
    0x90, 0x90, 0xF0, 0x10, 0x10, 0xF0, 0x80, 0xF0, 0x10, 0xF0,
    0xF0, 0x80, 0xF0, 0x90, 0xF0, 0xF0, 0x10, 0x20, 0x40, 0x40,
    0xF0, 0x90, 0xF0, 0x90, 0xF0, 0xF0, 0x90, 0xF0, 0x10, 0xF0,
    0xF0, 0x90, 0xF0, 0x90, 0x90, 0xE0, 0x90, 0xE0, 0x90, 0xE0,
    0xF0, 0x80, 0x80, 0x80, 0xF0, 0xE0, 0x90, 0x90, 0x90, 0xE0,
    0xF0, 0x80, 0xF0, 0x80, 0xF0, 0xF0, 0x80, 0xF0, 0x80, 0x80,
];

/// Ticks of the delay and sound timers are this many microseconds apart (60 Hz).
pub const TIMER_RATE: u64 = 16667;

/// The whole observable state of the machine, as mathematical values.
pub struct MachineState {
    pub memory: Seq<u8>,
    pub pc: u16,
    pub v: Seq<u8>,
    pub i: u16,
    pub stack: Seq<u16>,
    pub sp: usize,
    pub delay_timer: u8,
    pub sound_timer: u8,
    pub display: Seq<bool>,
    pub keypad: Seq<bool>,
    pub display_updated: bool,
    pub should_beep: bool,
}

impl MachineState {
    /// Every part of the state has its fixed size.
    pub open spec fn wf(self) -> bool {
        &&& self.memory.len() == MEMORY_SIZE
        &&& self.v.len() == 16
        &&& self.stack.len() == 16
        &&& self.display.len() == DISPLAY_SIZE
        &&& self.keypad.len() == 16
    }
}

/// Memory at power-on: the font at `FONT_ADDRESS`, zero elsewhere.
pub open spec fn initial_memory() -> Seq<u8> {
    Seq::new(
        MEMORY_SIZE as nat,
        |a: int|
            if FONT_ADDRESS <= a < FONT_ADDRESS + 80 {
                CHIP8_FONT@[a - FONT_ADDRESS]
            } else {
                0u8
            },
    )
}

/// Memory after copying `rom` to `START_ADDRESS`.
pub open spec fn loaded_memory(memory: Seq<u8>, rom: Seq<u8>) -> Seq<u8> {
    Seq::new(
        MEMORY_SIZE as nat,
        |a: int|
            if START_ADDRESS <= a < START_ADDRESS + rom.len() {
                rom[a - START_ADDRESS]
            } else {
                memory[a]
            },
    )
}

/// The state of a freshly built machine.
pub open spec fn initial_state() -> MachineState {
    MachineState {
        memory: initial_memory(),
        pc: START_ADDRESS,
        v: Seq::new(16, |k: int| 0u8),
        i: 0,
        stack: Seq::new(16, |k: int| 0u16),
        sp: 0,
        delay_timer: 0,
        sound_timer: 0,
        display: Seq::new(DISPLAY_SIZE as nat, |c: int| false),
        keypad: Seq::new(16, |k: int| false),
        display_updated: false,
        should_beep: false,
    }
}

/// `a` reduced to 16 bits, wrapping around.
pub open spec fn wrap16(a: int) -> u16 {
    (a % 0x10000) as u16
}

/// `a` reduced to 8 bits, wrapping around.
pub open spec fn wrap8(a: int) -> u8 {
    (a % 0x100) as u8
}

/// The big-endian opcode stored at `pc` and `pc + 1`.
pub open spec fn fetch_spec(s: MachineState) -> u16 {
    (s.memory[s.pc as int] as int * 256 + s.memory[s.pc + 1] as int) as u16
}

/// Skips the next instruction when `cond` holds.
pub open spec fn skip_if(s: MachineState, cond: bool) -> MachineState {
    if cond {
        MachineState { pc: wrap16(s.pc + 2), ..s }
    } else {
        s
    }
}

/// Sets register `x` to `val`.
pub open spec fn set_reg(s: MachineState, x: int, val: u8) -> MachineState {
    MachineState { v: s.v.update(x, val), ..s }
}

/// Sets register `x` to `val`, then the flag register to `flag`: the flag
/// wins where `x` is the flag register itself.
pub open spec fn set_reg_flag(s: MachineState, x: int, val: u8, flag: bool) -> MachineState {
    MachineState { v: s.v.update(x, val).update(15, if flag { 1u8 } else { 0u8 }), ..s }
}

/// Sprite row that display cell `cell` falls in when the sprite's top row is
/// at `vy` (wrapping vertically); only rows below the height are drawn.
pub open spec fn sprite_row_of(vy: u8, cell: int) -> int {
    (cell / DISPLAY_WIDTH as int - vy as int % DISPLAY_HEIGHT as int + DISPLAY_HEIGHT as int)
        % DISPLAY_HEIGHT as int
}

/// Sprite column that display cell `cell` falls in when the sprite's left
/// column is at `vx` (wrapping horizontally); only columns below 8 are drawn.
pub open spec fn sprite_col_of(vx: u8, cell: int) -> int {
    (cell % DISPLAY_WIDTH as int - vx as int % DISPLAY_WIDTH as int + DISPLAY_WIDTH as int)
        % DISPLAY_WIDTH as int
}

/// Bit `col` of a sprite row, the most significant bit first.
pub open spec fn sprite_bit(byte: u8, col: int) -> bool {
    (byte >> ((7 - col) as u8)) & 1u8 == 1u8
}

/// Whether the sprite of height `n` at memory `i`, drawn at (`vx`, `vy`),
/// has a set bit over display cell `cell`.
pub open spec fn sprite_covers(s: MachineState, vx: u8, vy: u8, n: int, cell: int) -> bool {
    let row = sprite_row_of(vy, cell);
    let col = sprite_col_of(vx, cell);
    &&& row < n
    &&& col < 8
    &&& sprite_bit(s.memory[s.i + row], col)
}

/// The display after XOR-drawing the sprite.
pub open spec fn drawn_display(s: MachineState, vx: u8, vy: u8, n: int) -> Seq<bool> {
    Seq::new(
        DISPLAY_SIZE as nat,
        |c: int| s.display[c] != sprite_covers(s, vx, vy, n, c),
    )
}

/// Whether the sprite has a set bit over a lit cell.
pub open spec fn draw_collides(s: MachineState, vx: u8, vy: u8, n: int) -> bool {
    exists|c: int|
        0 <= c < DISPLAY_SIZE && s.display[c] && #[trigger] sprite_covers(
            s,
            vx,
            vy,
            n,
            c,
        )
}

/// The lowest pressed key at index `k` or above; 16 where there is none.
pub open spec fn first_pressed_from(keys: Seq<bool>, k: int) -> int
    decreases 16 - k,
{
    if k >= 16 || k < 0 {
        16
    } else if keys[k] {
        k
    } else {
        first_pressed_from(keys, k + 1)
    }
}

/// The lowest pressed key; 16 where no key is pressed.
pub open spec fn first_pressed(keys: Seq<bool>) -> int {
    first_pressed_from(keys, 0)
}

/// One 60 Hz tick: both timers count down to zero, and the machine beeps
/// exactly when the sound timer was running.
pub open spec fn tick_spec(s: MachineState) -> MachineState {
    MachineState {
        delay_timer: if s.delay_timer > 0 { (s.delay_timer - 1) as u8 } else { 0 },
        sound_timer: if s.sound_timer > 0 { (s.sound_timer - 1) as u8 } else { 0 },
        should_beep: s.sound_timer > 0,
        ..s
    }
}

/// The effect of one instruction, the program counter already pointing past
/// it; `rnd` is the random byte that `Random` masks. On an error nothing is
/// changed.
pub open spec fn exec_spec(s: MachineState, ins: Instruction, rnd: u8) -> Result<
    MachineState,
    Chip8Error,
> {
    match ins {
        Instruction::ClearScreen => Ok(
            MachineState {
                display: Seq::new(DISPLAY_SIZE as nat, |c: int| false),
                ..s
            },
        ),
        Instruction::Return => if s.sp == 0 {
            Err(Chip8Error::StackUnderflow)
        } else if s.sp >= 16 {
            Err(Chip8Error::StackOverflow)
        } else {
            Ok(MachineState { pc: s.stack[s.sp as int], sp: (s.sp - 1) as usize, ..s })
        },
        Instruction::Jump { nnn } => Ok(MachineState { pc: nnn, ..s }),
        Instruction::Call { nnn } => if s.sp >= 15 {
            Err(Chip8Error::StackOverflow)
        } else {
            Ok(
                MachineState {
                    sp: (s.sp + 1) as usize,
                    stack: s.stack.update(s.sp + 1, s.pc),
                    pc: nnn,
                    ..s
                },
            )
        },
        Instruction::SkipIfEqImm { x, nn } => Ok(skip_if(s, s.v[x as int] == nn)),
        Instruction::SkipIfNeImm { x, nn } => Ok(skip_if(s, s.v[x as int] != nn)),
        Instruction::SkipIfEqReg { x, y } => Ok(skip_if(s, s.v[x as int] == s.v[y as int])),
        Instruction::LoadImm { x, nn } => Ok(set_reg(s, x as int, nn)),
        Instruction::AddImm { x, nn } => Ok(set_reg(s, x as int, wrap8(s.v[x as int] + nn))),
        Instruction::Move { x, y } => Ok(set_reg(s, x as int, s.v[y as int])),
        Instruction::Or { x, y } => Ok(set_reg(s, x as int, s.v[x as int] | s.v[y as int])),
        Instruction::And { x, y } => Ok(set_reg(s, x as int, s.v[x as int] & s.v[y as int])),
        Instruction::Xor { x, y } => Ok(set_reg(s, x as int, s.v[x as int] ^ s.v[y as int])),
        Instruction::AddReg { x, y } => {
            let sum = s.v[x as int] + s.v[y as int];
            Ok(set_reg_flag(s, x as int, wrap8(sum), sum > 255))
        },
        Instruction::SubReg { x, y } => {
            let a = s.v[x as int];
            let b = s.v[y as int];
            Ok(set_reg_flag(s, x as int, wrap8(a - b + 256), a > b))
        },
        Instruction::ShiftRight { x } => {
            let a = s.v[x as int];
            Ok(set_reg_flag(s, x as int, (a / 2) as u8, a % 2 == 1))
        },
        Instruction::SubRev { x, y } => {
            let a = s.v[x as int];
            let b = s.v[y as int];
            Ok(set_reg_flag(s, x as int, wrap8(b - a + 256), b > a))
        },
        Instruction::ShiftLeft { x } => {
            let a = s.v[x as int];
            Ok(set_reg_flag(s, x as int, wrap8(a * 2), a >= 128))
        },
        Instruction::SkipIfNeReg { x, y } => Ok(skip_if(s, s.v[x as int] != s.v[y as int])),
        Instruction::SetIndex { nnn } => Ok(MachineState { i: nnn, ..s }),
        Instruction::JumpOffset { nnn } => Ok(MachineState { pc: (nnn + s.v[0]) as u16, ..s }),
        Instruction::Random { x, nn } => Ok(set_reg(s, x as int, nn & rnd)),
        Instruction::Draw { x, y, n } => if n > 0 && s.i + n > MEMORY_SIZE {
            Err(Chip8Error::AddressOutOfRange)
        } else {
            let vx = s.v[x as int];
            let vy = s.v[y as int];
            Ok(
                MachineState {
                    display: drawn_display(s, vx, vy, n as int),
                    v: s.v.update(15, if draw_collides(s, vx, vy, n as int) { 1u8 } else { 0u8 }),
                    ..s
                },
            )
        },
        Instruction::SkipIfKey { x } => if s.v[x as int] >= 16 {
            Err(Chip8Error::InvalidKey(s.v[x as int]))
        } else {
            Ok(skip_if(s, s.keypad[s.v[x as int] as int]))
        },
        Instruction::SkipIfNotKey { x } => if s.v[x as int] >= 16 {
            Err(Chip8Error::InvalidKey(s.v[x as int]))
        } else {
            Ok(skip_if(s, !s.keypad[s.v[x as int] as int]))
        },
        Instruction::ReadDelay { x } => Ok(set_reg(s, x as int, s.delay_timer)),
        Instruction::WaitKey { x } => {
            let k = first_pressed(s.keypad);
            if k < 16 {
                Ok(set_reg(s, x as int, k as u8))
            } else {
                Ok(MachineState { pc: wrap16(s.pc - 2 + 0x10000), ..s })
            }
        },
        Instruction::SetDelay { x } => Ok(MachineState { delay_timer: s.v[x as int], ..s }),
        Instruction::SetSound { x } => Ok(MachineState { sound_timer: s.v[x as int], ..s }),
        Instruction::AddIndex { x } => Ok(MachineState { i: wrap16(s.i + s.v[x as int]), ..s }),
        Instruction::FontChar { x } => Ok(
            MachineState { i: (FONT_ADDRESS + s.v[x as int] * 5) as u16, ..s },
        ),
        Instruction::StoreBcd { x } => if s.i + 2 >= MEMORY_SIZE {
            Err(Chip8Error::AddressOutOfRange)
        } else {
            let a = s.v[x as int];
            Ok(
                MachineState {
                    memory: s.memory.update(s.i as int, (a / 100) as u8).update(
                        s.i + 1,
                        ((a / 10) % 10) as u8,
                    ).update(s.i + 2, (a % 10) as u8),
                    ..s
                },
            )
        },
        Instruction::StoreRegs { x } => if s.i + x >= MEMORY_SIZE {
            Err(Chip8Error::AddressOutOfRange)
        } else {
            Ok(
                MachineState {
                    memory: Seq::new(
                        MEMORY_SIZE as nat,
                        |a: int| if s.i <= a <= s.i + x { s.v[a - s.i] } else { s.memory[a] },
                    ),
                    ..s
                },
            )
        },
        Instruction::LoadRegs { x } => if s.i + x >= MEMORY_SIZE {
            Err(Chip8Error::AddressOutOfRange)
        } else {
            Ok(
                MachineState {
                    v: Seq::new(16, |k: int| if k <= x { s.memory[s.i + k] } else { s.v[k] }),
                    ..s
                },
            )
        },
    }
}

/// `r` and `t` are what executing `ins` on `s` returns and leaves: the next
/// state on success, or the error with `s` unchanged.
pub open spec fn exec_outcome(
    s: MachineState,
    ins: Instruction,
    rnd: u8,
    r: Result<(), Chip8Error>,
    t: MachineState,
) -> bool {
    match exec_spec(s, ins, rnd) {
        Ok(next) => r is Ok && t == next,
        Err(e) => r == Err::<(), Chip8Error>(e) && t == s,
    }
}

/// One machine cycle: fetch at `pc`, advance `pc` past the opcode, clear the
/// display-changed flag, execute, and on a timer tick (`due`) count the timers
/// down and raise the display-changed flag. On an error nothing is changed.
pub open spec fn cycle_spec(s: MachineState, due: bool, rnd: u8) -> Result<
    MachineState,
    Chip8Error,
> {
    if s.pc + 1 >= MEMORY_SIZE {
        Err(Chip8Error::AddressOutOfRange)
    } else {
        let op = fetch_spec(s);
        match decode_spec(op) {
            None => Err(Chip8Error::UnknownOpcode(op)),
            Some(ins) => {
                let started = MachineState {
                    pc: (s.pc + 2) as u16,
                    display_updated: false,
                    ..s
                };
                match exec_spec(started, ins, rnd) {
                    Err(e) => Err(e),
                    Ok(t) => if due {
                        Ok(MachineState { display_updated: true, ..tick_spec(t) })
                    } else {
                        Ok(t)
                    },
                }
            },
        }
    }
}

/// `r` and `t` are what one cycle on `s` returns and leaves: the next state
/// on success, or the error with `s` unchanged.
pub open spec fn cycle_outcome(
    s: MachineState,
    due: bool,
    rnd: u8,
    r: Result<(), Chip8Error>,
    t: MachineState,
) -> bool {
    match cycle_spec(s, due, rnd) {
        Ok(next) => r is Ok && t == next,
        Err(e) => r == Err::<(), Chip8Error>(e) && t == s,
    }
}

} // verus!
