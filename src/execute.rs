use vstd::arithmetic::div_mod::{lemma_fundamental_div_mod, lemma_fundamental_div_mod_converse};
use vstd::prelude::*;

use crate::clock::random_byte;
use crate::cpu::Cpu;
use crate::error::Chip8Error;
use crate::instruction::{decode_spec, Instruction};
use crate::machine::{
    cycle_outcome, draw_collides, drawn_display, exec_outcome, exec_spec, first_pressed, first_pressed_from,
    sprite_bit, sprite_col_of, sprite_covers, sprite_row_of, MachineState, DISPLAY_HEIGHT,
    DISPLAY_SIZE, DISPLAY_WIDTH, FONT_ADDRESS, MEMORY_SIZE, TIMER_RATE,
};

verus! {

/// Whether cell `cell` comes before sprite position (`row`, `col`) in drawing
/// order, rows first.
spec fn drawn_before(vx: u8, vy: u8, cell: int, row: int, col: int) -> bool {
    let r = sprite_row_of(vy, cell);
    r < row || (r == row && sprite_col_of(vx, cell) < col)
}

/// Offsetting `base` by `off` and wrapping at `m` puts the result `off`
/// places after `base % m`, counted cyclically; a point `p` of `[0, m)` that
/// lies `off` places after it is that result.
proof fn lemma_wrap_offset(base: int, off: int, m: int, p: int)
    requires
        0 <= base,
        0 <= off < m,
    ensures
        ((base + off) % m - base % m + m) % m == off,
        0 <= p < m && (p - base % m + m) % m == off ==> p == (base + off) % m,
{
    let a = base % m;
    let q = base / m;
    lemma_fundamental_div_mod(base, m);
    assert(base == q * m + a) by (nonlinear_arith)
        requires
            base == m * (base / m) + base % m,
            q == base / m,
            a == base % m,
    ;
    if a + off < m {
        assert(base + off == q * m + (a + off)) by (nonlinear_arith)
            requires
                base == q * m + a,
        ;
        lemma_fundamental_div_mod_converse(base + off, m, q, a + off);
        lemma_fundamental_div_mod_converse(off + m, m, 1, off);
    } else {
        assert(base + off == (q + 1) * m + (a + off - m)) by (nonlinear_arith)
            requires
                base == q * m + a,
        ;
        lemma_fundamental_div_mod_converse(base + off, m, q + 1, a + off - m);
        lemma_fundamental_div_mod_converse(off, m, 0, off);
    }
    if 0 <= p < m {
        if p >= a {
            lemma_fundamental_div_mod_converse(p - a + m, m, 1, p - a);
        } else {
            lemma_fundamental_div_mod_converse(p - a + m, m, 0, p - a + m);
        }
    }
}

/// Sprite position (`row`, `col`) lands on exactly one display cell, the one
/// that the drawing loop computes.
proof fn lemma_sprite_cell(vx: u8, vy: u8, row: int, col: int)
    requires
        0 <= row < 16,
        0 <= col < 8,
    ensures
        ({
            let c = DISPLAY_WIDTH * ((vy + row) % DISPLAY_HEIGHT as int) + (vx + col)
                % DISPLAY_WIDTH as int;
            &&& 0 <= c < DISPLAY_SIZE
            &&& sprite_row_of(vy, c) == row
            &&& sprite_col_of(vx, c) == col
            &&& forall|d: int|
                0 <= d < DISPLAY_SIZE && sprite_row_of(vy, d) == row && sprite_col_of(vx, d)
                    == col ==> d == c
        }),
{
    let yc = (vy + row) % 32;
    let xc = (vx + col) % 64;
    let c = 64 * yc + xc;
    lemma_wrap_offset(vy as int, row, 32, 0);
    lemma_wrap_offset(vx as int, col, 64, 0);
    lemma_fundamental_div_mod_converse(c, 64, yc, xc);
    assert forall|d: int|
        0 <= d < DISPLAY_SIZE && sprite_row_of(vy, d) == row && sprite_col_of(vx, d)
            == col implies d == c by {
        lemma_fundamental_div_mod(d, 64);
        assert(0 <= d / 64 < 32 && 0 <= d % 64 < 64) by {
            lemma_fundamental_div_mod_converse(d, 64, d / 64, d % 64);
        }
        lemma_wrap_offset(vy as int, row, 32, d / 64);
        lemma_wrap_offset(vx as int, col, 64, d % 64);
    }
}

impl Cpu {
    /// Executes one decoded instruction, the program counter already pointing
    /// past it; `rnd` is the byte that `Random` masks. On an error the machine
    /// is left as it was.
    pub fn execute(&mut self, ins: Instruction, rnd: u8) -> (r: Result<(), Chip8Error>)
        requires
            ins.wf(),
        ensures
            exec_outcome(old(self)@, ins, rnd, r, final(self)@),
    {
        match ins {
            Instruction::ClearScreen => {
                self.instruction_00e0();
                Ok(())
            },
            Instruction::Return => self.instruction_00ee(),
            Instruction::Jump { nnn } => {
                self.instruction_1nnn(nnn);
                Ok(())
            },
            Instruction::Call { nnn } => self.instruction_2nnn(nnn),
            Instruction::SkipIfEqImm { x, nn } => {
                self.instruction_3xnn(x, nn);
                Ok(())
            },
            Instruction::SkipIfNeImm { x, nn } => {
                self.instruction_4xnn(x, nn);
                Ok(())
            },
            Instruction::SkipIfEqReg { x, y } => {
                self.instruction_5xy0(x, y);
                Ok(())
            },
            Instruction::LoadImm { x, nn } => {
                self.instruction_6xnn(x, nn);
                Ok(())
            },
            Instruction::AddImm { x, nn } => {
                self.instruction_7xnn(x, nn);
                Ok(())
            },
            Instruction::Move { x, y } => {
                self.instruction_8xy0(x, y);
                Ok(())
            },
            Instruction::Or { x, y } => {
                self.instruction_8xy1(x, y);
                Ok(())
            },
            Instruction::And { x, y } => {
                self.instruction_8xy2(x, y);
                Ok(())
            },
            Instruction::Xor { x, y } => {
                self.instruction_8xy3(x, y);
                Ok(())
            },
            Instruction::AddReg { x, y } => {
                self.instruction_8xy4(x, y);
                Ok(())
            },
            Instruction::SubReg { x, y } => {
                self.instruction_8xy5(x, y);
                Ok(())
            },
            Instruction::ShiftRight { x } => {
                self.instruction_8xy6(x);
                Ok(())
            },
            Instruction::SubRev { x, y } => {
                self.instruction_8xy7(x, y);
                Ok(())
            },
            Instruction::ShiftLeft { x } => {
                self.instruction_8xye(x);
                Ok(())
            },
            Instruction::SkipIfNeReg { x, y } => {
                self.instruction_9xy0(x, y);
                Ok(())
            },
            Instruction::SetIndex { nnn } => {
                self.instruction_annn(nnn);
                Ok(())
            },
            Instruction::JumpOffset { nnn } => {
                self.instruction_bnnn(nnn);
                Ok(())
            },
            Instruction::Random { x, nn } => {
                self.instruction_cxnn(x, nn, rnd);
                Ok(())
            },
            Instruction::Draw { x, y, n } => self.instruction_dxyn(x, y, n),
            Instruction::SkipIfKey { x } => self.instruction_ex9e(x),
            Instruction::SkipIfNotKey { x } => self.instruction_exa1(x),
            Instruction::ReadDelay { x } => {
                self.instruction_fx07(x);
                Ok(())
            },
            Instruction::WaitKey { x } => {
                self.instruction_fx0a(x);
                Ok(())
            },
            Instruction::SetDelay { x } => {
                self.instruction_fx15(x);
                Ok(())
            },
            Instruction::SetSound { x } => {
                self.instruction_fx18(x);
                Ok(())
            },
            Instruction::AddIndex { x } => {
                self.instruction_fx1e(x);
                Ok(())
            },
            Instruction::FontChar { x } => {
                self.instruction_fx29(x);
                Ok(())
            },
            Instruction::StoreBcd { x } => self.instruction_fx33(x),
            Instruction::StoreRegs { x } => self.instruction_fx55(x),
            Instruction::LoadRegs { x } => self.instruction_fx65(x),
        }
    }

    /// Decodes `opcode` and executes it, the program counter already pointing
    /// past it. An opcode that encodes no instruction is reported as
    /// `UnknownOpcode` and changes nothing; a `Random` instruction draws its
    /// byte from the thread-local generator.
    pub fn decode(&mut self, opcode: u16) -> (r: Result<(), Chip8Error>)
        ensures
            decode_spec(opcode) is None ==> r == Err::<(), Chip8Error>(
                Chip8Error::UnknownOpcode(opcode),
            ) && final(self)@ == old(self)@,
            decode_spec(opcode) matches Some(ins) ==> exists|rnd: u8|
                #[trigger] exec_outcome(old(self)@, ins, rnd, r, final(self)@),
            decode_spec(opcode) matches Some(ins) ==> (ins !is Random ==> exec_outcome(
                old(self)@,
                ins,
                0,
                r,
                final(self)@,
            )),
    {
        let ins = match Instruction::from_opcode(opcode) {
            Ok(ins) => ins,
            Err(e) => return Err(e),
        };
        let rnd: u8 = if let Instruction::Random { .. } = ins {
            random_byte()
        } else {
            0
        };
        let ghost s = self@;
        let r = self.execute(ins, rnd);
        assert(exec_outcome(s, ins, rnd, r, self@));
        r
    }

    /// One machine cycle: fetches the opcode at `pc`, moves `pc` past it,
    /// clears the display-changed flag and executes the instruction, with
    /// `rnd` as the byte that `Random` masks. When `timer_due`, the timers
    /// then tick and the display-changed flag is raised. On an error the
    /// machine is left as it was.
    pub fn cycle(&mut self, timer_due: bool, rnd: u8) -> (r: Result<(), Chip8Error>)
        ensures
            cycle_outcome(old(self)@, timer_due, rnd, r, final(self)@),
    {
        if self.pc as usize + 1 >= MEMORY_SIZE {
            return Err(Chip8Error::AddressOutOfRange);
        }
        let opcode = self.fetch();
        let ins = match Instruction::from_opcode(opcode) {
            Ok(ins) => ins,
            Err(e) => return Err(e),
        };
        let saved_pc = self.pc;
        let saved_flag = self.display_updated;
        self.pc = self.pc + 2;
        self.display_updated = false;
        match self.execute(ins, rnd) {
            Ok(()) => {},
            Err(e) => {
                self.pc = saved_pc;
                self.display_updated = saved_flag;
                return Err(e);
            },
        }
        if timer_due {
            self.display_updated = true;
            self.update_timers();
        }
        Ok(())
    }

    /// Runs one machine cycle. The timers tick when at least `TIMER_RATE`
    /// microseconds have passed since the last tick; `Random` draws its byte
    /// from the thread-local generator.
    pub fn run(&mut self) -> (r: Result<(), Chip8Error>)
        ensures
            exists|due: bool, rnd: u8| #[trigger]
                cycle_outcome(old(self)@, due, rnd, r, final(self)@),
    {
        let elapsed = self.tick_period.elapsed();
        let due = elapsed.as_micros() >= TIMER_RATE as u128;
        let rnd = random_byte();
        let ghost s = self@;
        let r = self.cycle(due, rnd);
        if due && r.is_ok() {
            self.tick_period = std::time::Instant::now();
        }
        assert(cycle_outcome(s, due, rnd, r, self@));
        r
    }

    /// Clears the display.
    fn instruction_00e0(&mut self)
        ensures
            exec_spec(old(self)@, Instruction::ClearScreen, 0) == Ok::<MachineState, Chip8Error>(
                final(self)@,
            ),
    {
        self.display = [false; DISPLAY_SIZE];
        assert(self.display@ =~= Seq::new(DISPLAY_SIZE as nat, |c: int| false));
    }

    /// Returns from a subroutine: the counter takes the innermost return
    /// address and the frame is popped.
    fn instruction_00ee(&mut self) -> (r: Result<(), Chip8Error>)
        ensures
            exec_outcome(old(self)@, Instruction::Return, 0, r, final(self)@),
    {
        if self.sp == 0 {
            return Err(Chip8Error::StackUnderflow);
        }
        if self.sp >= 16 {
            return Err(Chip8Error::StackOverflow);
        }
        self.pc = self.stack[self.sp];
        self.sp -= 1;
        Ok(())
    }

    /// Jumps to `nnn`.
    fn instruction_1nnn(&mut self, nnn: u16)
        ensures
            exec_spec(old(self)@, (Instruction::Jump { nnn }), 0) == Ok::<
                MachineState,
                Chip8Error,
            >(final(self)@),
    {
        self.pc = nnn;
    }

    /// Calls the subroutine at `nnn`: pushes the counter, then jumps.
    fn instruction_2nnn(&mut self, nnn: u16) -> (r: Result<(), Chip8Error>)
        ensures
            exec_outcome(old(self)@, (Instruction::Call { nnn }), 0, r, final(self)@),
    {
        if self.sp >= 15 {
            return Err(Chip8Error::StackOverflow);
        }
        self.sp += 1;
        self.stack[self.sp] = self.pc;
        self.pc = nnn;
        Ok(())
    }

    /// Skips the next instruction if `v[x] == nn`.
    fn instruction_3xnn(&mut self, x: usize, nn: u8)
        requires
            x < 16,
        ensures
            exec_spec(old(self)@, (Instruction::SkipIfEqImm { x, nn }), 0) == Ok::<
                MachineState,
                Chip8Error,
            >(final(self)@),
    {
        if self.v[x] == nn {
            self.pc = self.pc.wrapping_add(2);
        }
    }

    /// Skips the next instruction if `v[x] != nn`.
    fn instruction_4xnn(&mut self, x: usize, nn: u8)
        requires
            x < 16,
        ensures
            exec_spec(old(self)@, (Instruction::SkipIfNeImm { x, nn }), 0) == Ok::<
                MachineState,
                Chip8Error,
            >(final(self)@),
    {
        if self.v[x] != nn {
            self.pc = self.pc.wrapping_add(2);
        }
    }

    /// Skips the next instruction if `v[x] == v[y]`.
    fn instruction_5xy0(&mut self, x: usize, y: usize)
        requires
            x < 16,
            y < 16,
        ensures
            exec_spec(old(self)@, (Instruction::SkipIfEqReg { x, y }), 0) == Ok::<
                MachineState,
                Chip8Error,
            >(final(self)@),
    {
        if self.v[x] == self.v[y] {
            self.pc = self.pc.wrapping_add(2);
        }
    }

    /// Sets `v[x]` to `nn`.
    fn instruction_6xnn(&mut self, x: usize, nn: u8)
        requires
            x < 16,
        ensures
            exec_spec(old(self)@, (Instruction::LoadImm { x, nn }), 0) == Ok::<
                MachineState,
                Chip8Error,
            >(final(self)@),
    {
        self.v[x] = nn;
    }

    /// Adds `nn` to `v[x]`, wrapping, with no flag.
    fn instruction_7xnn(&mut self, x: usize, nn: u8)
        requires
            x < 16,
        ensures
            exec_spec(old(self)@, (Instruction::AddImm { x, nn }), 0) == Ok::<
                MachineState,
                Chip8Error,
            >(final(self)@),
    {
        self.v[x] = self.v[x].wrapping_add(nn);
    }

    /// Sets `v[x]` to `v[y]`.
    fn instruction_8xy0(&mut self, x: usize, y: usize)
        requires
            x < 16,
            y < 16,
        ensures
            exec_spec(old(self)@, (Instruction::Move { x, y }), 0) == Ok::<
                MachineState,
                Chip8Error,
            >(final(self)@),
    {
        self.v[x] = self.v[y];
    }

    /// Sets `v[x]` to `v[x] | v[y]`.
    fn instruction_8xy1(&mut self, x: usize, y: usize)
        requires
            x < 16,
            y < 16,
        ensures
            exec_spec(old(self)@, (Instruction::Or { x, y }), 0) == Ok::<
                MachineState,
                Chip8Error,
            >(final(self)@),
    {
        self.v[x] = self.v[x] | self.v[y];
    }

    /// Sets `v[x]` to `v[x] & v[y]`.
    fn instruction_8xy2(&mut self, x: usize, y: usize)
        requires
            x < 16,
            y < 16,
        ensures
            exec_spec(old(self)@, (Instruction::And { x, y }), 0) == Ok::<
                MachineState,
                Chip8Error,
            >(final(self)@),
    {
        self.v[x] = self.v[x] & self.v[y];
    }

    /// Sets `v[x]` to `v[x] ^ v[y]`.
    fn instruction_8xy3(&mut self, x: usize, y: usize)
        requires
            x < 16,
            y < 16,
        ensures
            exec_spec(old(self)@, (Instruction::Xor { x, y }), 0) == Ok::<
                MachineState,
                Chip8Error,
            >(final(self)@),
    {
        self.v[x] = self.v[x] ^ self.v[y];
    }

    /// Adds `v[y]` to `v[x]`, wrapping; the flag register records the carry.
    fn instruction_8xy4(&mut self, x: usize, y: usize)
        requires
            x < 16,
            y < 16,
        ensures
            exec_spec(old(self)@, (Instruction::AddReg { x, y }), 0) == Ok::<
                MachineState,
                Chip8Error,
            >(final(self)@),
    {
        let a = self.v[x];
        let b = self.v[y];
        let carry: u8 = if (a as u16) + (b as u16) > u8::MAX as u16 { 1 } else { 0 };
        self.v[x] = a.wrapping_add(b);
        self.v[0xF] = carry;
    }

    /// Subtracts `v[y]` from `v[x]`, wrapping; the flag register is 1 when
    /// `v[x] > v[y]` (no borrow).
    fn instruction_8xy5(&mut self, x: usize, y: usize)
        requires
            x < 16,
            y < 16,
        ensures
            exec_spec(old(self)@, (Instruction::SubReg { x, y }), 0) == Ok::<
                MachineState,
                Chip8Error,
            >(final(self)@),
    {
        let a = self.v[x];
        let b = self.v[y];
        let no_borrow: u8 = if a > b { 1 } else { 0 };
        self.v[x] = a.wrapping_sub(b);
        self.v[0xF] = no_borrow;
    }

    /// Shifts `v[x]` right by one; the flag register takes the bit shifted out.
    fn instruction_8xy6(&mut self, x: usize)
        requires
            x < 16,
        ensures
            exec_spec(old(self)@, (Instruction::ShiftRight { x }), 0) == Ok::<
                MachineState,
                Chip8Error,
            >(final(self)@),
    {
        let a = self.v[x];
        let lsb = a & 1;
        assert(lsb == a % 2 && a >> 1u8 == a / 2) by (bit_vector)
            requires
                lsb == a & 1,
        ;
        self.v[x] = a >> 1;
        self.v[0xF] = lsb;
    }

    /// Sets `v[x]` to `v[y] - v[x]`, wrapping; the flag register is 1 when
    /// `v[y] > v[x]` (no borrow).
    fn instruction_8xy7(&mut self, x: usize, y: usize)
        requires
            x < 16,
            y < 16,
        ensures
            exec_spec(old(self)@, (Instruction::SubRev { x, y }), 0) == Ok::<
                MachineState,
                Chip8Error,
            >(final(self)@),
    {
        let a = self.v[x];
        let b = self.v[y];
        let no_borrow: u8 = if b > a { 1 } else { 0 };
        self.v[x] = b.wrapping_sub(a);
        self.v[0xF] = no_borrow;
    }

    /// Shifts `v[x]` left by one; the flag register takes the bit shifted out.
    fn instruction_8xye(&mut self, x: usize)
        requires
            x < 16,
        ensures
            exec_spec(old(self)@, (Instruction::ShiftLeft { x }), 0) == Ok::<
                MachineState,
                Chip8Error,
            >(final(self)@),
    {
        let a = self.v[x];
        let msb = (a >> 7) & 1;
        assert((msb == 1) == (a >= 128) && msb <= 1 && a << 1u8 == ((a as u16 * 2) % 256) as u8)
            by (bit_vector)
            requires
                msb == (a >> 7u8) & 1,
        ;
        self.v[x] = a << 1;
        self.v[0xF] = msb;
    }

    /// Skips the next instruction if `v[x] != v[y]`.
    fn instruction_9xy0(&mut self, x: usize, y: usize)
        requires
            x < 16,
            y < 16,
        ensures
            exec_spec(old(self)@, (Instruction::SkipIfNeReg { x, y }), 0) == Ok::<
                MachineState,
                Chip8Error,
            >(final(self)@),
    {
        if self.v[x] != self.v[y] {
            self.pc = self.pc.wrapping_add(2);
        }
    }

    /// Sets the index register to `nnn`.
    fn instruction_annn(&mut self, nnn: u16)
        ensures
            exec_spec(old(self)@, (Instruction::SetIndex { nnn }), 0) == Ok::<
                MachineState,
                Chip8Error,
            >(final(self)@),
    {
        self.i = nnn;
    }

    /// Jumps to `nnn + v[0]`.
    fn instruction_bnnn(&mut self, nnn: u16)
        requires
            nnn < 0x1000,
        ensures
            exec_spec(old(self)@, (Instruction::JumpOffset { nnn }), 0) == Ok::<
                MachineState,
                Chip8Error,
            >(final(self)@),
    {
        self.pc = nnn + self.v[0] as u16;
    }

    /// Sets `v[x]` to `nn & rnd`, `rnd` being a random byte.
    fn instruction_cxnn(&mut self, x: usize, nn: u8, rnd: u8)
        requires
            x < 16,
        ensures
            exec_spec(old(self)@, (Instruction::Random { x, nn }), rnd) == Ok::<
                MachineState,
                Chip8Error,
            >(final(self)@),
    {
        self.v[x] = nn & rnd;
    }

    /// XOR-draws the `n`-row sprite at memory `i` with its top-left corner at
    /// (`v[x]`, `v[y]`), wrapping at the display edges; the flag register is
    /// 1 when a lit cell was turned off.
    fn instruction_dxyn(&mut self, x: usize, y: usize, n: usize) -> (r: Result<(), Chip8Error>)
        requires
            x < 16,
            y < 16,
            n < 16,
        ensures
            exec_outcome(old(self)@, (Instruction::Draw { x, y, n }), 0, r, final(self)@),
    {
        if n > 0 && self.i as usize + n > MEMORY_SIZE {
            return Err(Chip8Error::AddressOutOfRange);
        }
        let ghost s = self@;
        let vx = self.v[x];
        let vy = self.v[y];
        let ghost h = n as int;
        let mut collision = false;
        let mut row: usize = 0;
        while row < n
            invariant
                row <= n < 16,
                h == n,
                n == 0 || s.i + n <= MEMORY_SIZE,
                vx == s.v[x as int],
                vy == s.v[y as int],
                self@ == (MachineState { display: self@.display, ..s }),
                forall|c: int|
                    0 <= c < DISPLAY_SIZE ==> self.display@[c] == (s.display[c] != (
                    sprite_covers(s, vx, vy, h, c) && drawn_before(vx, vy, c, row as int, 0))),
                collision == exists|c: int|
                    0 <= c < DISPLAY_SIZE && s.display[c] && #[trigger] sprite_covers(
                        s,
                        vx,
                        vy,
                        h,
                        c,
                    ) && drawn_before(vx, vy, c, row as int, 0),
            decreases n - row,
        {
            let y_coord = (vy as usize + row) % DISPLAY_HEIGHT;
            let pixels = self.memory[self.i as usize + row];
            let mut bit: usize = 0;
            while bit < 8
                invariant
                    row < n < 16,
                    h == n,
                    bit <= 8,
                    s.i + n <= MEMORY_SIZE,
                    vx == s.v[x as int],
                    vy == s.v[y as int],
                    y_coord == (vy + row) % DISPLAY_HEIGHT as int,
                    pixels == s.memory[s.i + row],
                    self@ == (MachineState { display: self@.display, ..s }),
                    forall|c: int|
                        0 <= c < DISPLAY_SIZE ==> self.display@[c] == (s.display[c] != (
                        sprite_covers(s, vx, vy, h, c) && drawn_before(
                            vx,
                            vy,
                            c,
                            row as int,
                            bit as int,
                        ))),
                    collision == exists|c: int|
                        0 <= c < DISPLAY_SIZE && s.display[c] && #[trigger] sprite_covers(
                            s,
                            vx,
                            vy,
                            h,
                            c,
                        ) && drawn_before(vx, vy, c, row as int, bit as int),
                decreases 8 - bit,
            {
                let x_coord = (vx as usize + bit) % DISPLAY_WIDTH;
                let pixel = (pixels >> (7 - bit as u8)) & 1;
                let ghost before = self.display@;
                let ghost was_colliding = collision;
                proof {
                    lemma_sprite_cell(vx, vy, row as int, bit as int);
                }
                let ghost cell = DISPLAY_WIDTH * y_coord + x_coord;
                assert(sprite_bit(pixels, bit as int) == (pixel == 1));
                assert(sprite_covers(s, vx, vy, h, cell) == (pixel == 1));
                if pixel == 1 {
                    let index = DISPLAY_WIDTH * y_coord + x_coord;
                    if self.display[index] {
                        collision = true;
                    }
                    self.display[index] = !self.display[index];
                }
                assert forall|c: int| 0 <= c < DISPLAY_SIZE && c != cell implies drawn_before(
                    vx,
                    vy,
                    c,
                    row as int,
                    bit + 1,
                ) == drawn_before(vx, vy, c, row as int, bit as int) by {}
                proof {
                    if collision {
                        if !was_colliding {
                            assert(s.display[cell] && sprite_covers(s, vx, vy, h, cell)
                                && drawn_before(vx, vy, cell, row as int, bit + 1));
                        } else {
                            let w = choose|c: int|
                                0 <= c < DISPLAY_SIZE && s.display[c] && #[trigger] sprite_covers(
                                    s,
                                    vx,
                                    vy,
                                    h,
                                    c,
                                ) && drawn_before(vx, vy, c, row as int, bit as int);
                            assert(drawn_before(vx, vy, w, row as int, bit + 1));
                        }
                    } else {
                        assert forall|c: int|
                            0 <= c < DISPLAY_SIZE && s.display[c] && #[trigger] sprite_covers(
                                s,
                                vx,
                                vy,
                                h,
                                c,
                            ) implies !drawn_before(vx, vy, c, row as int, bit + 1) by {
                            if c != cell {
                                assert(!drawn_before(vx, vy, c, row as int, bit as int));
                            }
                        }
                    }
                }
                bit += 1;
            }
            assert forall|c: int|
                0 <= c < DISPLAY_SIZE && #[trigger] sprite_covers(s, vx, vy, h, c) implies
                drawn_before(vx, vy, c, row as int, 8) == drawn_before(
                    vx,
                    vy,
                    c,
                    row + 1,
                    0,
                ) by {}
            row += 1;
        }
        self.v[0xF] = if collision { 1 } else { 0 };
        assert(self.display@ =~= drawn_display(s, vx, vy, h));
        assert(collision == draw_collides(s, vx, vy, h));
        Ok(())
    }

    /// Skips the next instruction if the key named by `v[x]` is pressed.
    fn instruction_ex9e(&mut self, x: usize) -> (r: Result<(), Chip8Error>)
        requires
            x < 16,
        ensures
            exec_outcome(old(self)@, (Instruction::SkipIfKey { x }), 0, r, final(self)@),
    {
        let key = self.v[x];
        if key >= 16 {
            return Err(Chip8Error::InvalidKey(key));
        }
        if self.keypad[key as usize] {
            self.pc = self.pc.wrapping_add(2);
        }
        Ok(())
    }

    /// Skips the next instruction if the key named by `v[x]` is not pressed.
    fn instruction_exa1(&mut self, x: usize) -> (r: Result<(), Chip8Error>)
        requires
            x < 16,
        ensures
            exec_outcome(old(self)@, (Instruction::SkipIfNotKey { x }), 0, r, final(self)@),
    {
        let key = self.v[x];
        if key >= 16 {
            return Err(Chip8Error::InvalidKey(key));
        }
        if !self.keypad[key as usize] {
            self.pc = self.pc.wrapping_add(2);
        }
        Ok(())
    }

    /// Sets `v[x]` to the delay timer.
    fn instruction_fx07(&mut self, x: usize)
        requires
            x < 16,
        ensures
            exec_spec(old(self)@, (Instruction::ReadDelay { x }), 0) == Ok::<
                MachineState,
                Chip8Error,
            >(final(self)@),
    {
        self.v[x] = self.delay_timer;
    }

    /// Waits for a key: stores the lowest pressed key in `v[x]`, or, with no
    /// key pressed, moves the counter back so that this instruction runs again.
    fn instruction_fx0a(&mut self, x: usize)
        requires
            x < 16,
        ensures
            exec_spec(old(self)@, (Instruction::WaitKey { x }), 0) == Ok::<
                MachineState,
                Chip8Error,
            >(final(self)@),
    {
        let mut idx: usize = 0;
        while idx < 16
            invariant
                idx <= 16,
                x < 16,
                forall|j: int| 0 <= j < idx ==> !self.keypad@[j],
                first_pressed(self.keypad@) == first_pressed_from(self.keypad@, idx as int),
                *self == *old(self),
            decreases 16 - idx,
        {
            if self.keypad[idx] {
                self.v[x] = idx as u8;
                return;
            }
            idx += 1;
        }
        self.pc = self.pc.wrapping_sub(2);
    }

    /// Sets the delay timer to `v[x]`.
    fn instruction_fx15(&mut self, x: usize)
        requires
            x < 16,
        ensures
            exec_spec(old(self)@, (Instruction::SetDelay { x }), 0) == Ok::<
                MachineState,
                Chip8Error,
            >(final(self)@),
    {
        self.delay_timer = self.v[x];
    }

    /// Sets the sound timer to `v[x]`.
    fn instruction_fx18(&mut self, x: usize)
        requires
            x < 16,
        ensures
            exec_spec(old(self)@, (Instruction::SetSound { x }), 0) == Ok::<
                MachineState,
                Chip8Error,
            >(final(self)@),
    {
        self.sound_timer = self.v[x];
    }

    /// Adds `v[x]` to the index register, wrapping on 16 bits.
    fn instruction_fx1e(&mut self, x: usize)
        requires
            x < 16,
        ensures
            exec_spec(old(self)@, (Instruction::AddIndex { x }), 0) == Ok::<
                MachineState,
                Chip8Error,
            >(final(self)@),
    {
        self.i = self.i.wrapping_add(self.v[x] as u16);
    }

    /// Points the index register at the font glyph for `v[x]`.
    fn instruction_fx29(&mut self, x: usize)
        requires
            x < 16,
        ensures
            exec_spec(old(self)@, (Instruction::FontChar { x }), 0) == Ok::<
                MachineState,
                Chip8Error,
            >(final(self)@),
    {
        self.i = FONT_ADDRESS + (self.v[x] as u16) * 5;
    }

    /// Stores the decimal digits of `v[x]` at `i`, `i + 1` and `i + 2`.
    fn instruction_fx33(&mut self, x: usize) -> (r: Result<(), Chip8Error>)
        requires
            x < 16,
        ensures
            exec_outcome(old(self)@, (Instruction::StoreBcd { x }), 0, r, final(self)@),
    {
        let at = self.i as usize;
        if at + 2 >= MEMORY_SIZE {
            return Err(Chip8Error::AddressOutOfRange);
        }
        let a = self.v[x];
        self.memory[at] = a / 100;
        self.memory[at + 1] = (a / 10) % 10;
        self.memory[at + 2] = a % 10;
        Ok(())
    }

    /// Stores `v[0]` to `v[x]` in memory from `i`.
    fn instruction_fx55(&mut self, x: usize) -> (r: Result<(), Chip8Error>)
        requires
            x < 16,
        ensures
            exec_outcome(old(self)@, (Instruction::StoreRegs { x }), 0, r, final(self)@),
    {
        let at = self.i as usize;
        if at + x >= MEMORY_SIZE {
            return Err(Chip8Error::AddressOutOfRange);
        }
        let ghost s = self@;
        let mut idx: usize = 0;
        while idx <= x
            invariant
                idx <= x + 1,
                x < 16,
                at == s.i,
                at + x < MEMORY_SIZE,
                self@ == (MachineState { memory: self@.memory, ..s }),
                forall|a: int|
                    0 <= a < MEMORY_SIZE ==> self.memory@[a] == if at <= a < at + idx {
                        s.v[a - at]
                    } else {
                        s.memory[a]
                    },
            decreases x + 1 - idx,
        {
            self.memory[at + idx] = self.v[idx];
            idx += 1;
        }
        assert(self.memory@ =~= Seq::new(
            MEMORY_SIZE as nat,
            |a: int| if s.i <= a <= s.i + x { s.v[a - s.i] } else { s.memory[a] },
        ));
        Ok(())
    }

    /// Loads `v[0]` to `v[x]` from memory from `i`.
    fn instruction_fx65(&mut self, x: usize) -> (r: Result<(), Chip8Error>)
        requires
            x < 16,
        ensures
            exec_outcome(old(self)@, (Instruction::LoadRegs { x }), 0, r, final(self)@),
    {
        let at = self.i as usize;
        if at + x >= MEMORY_SIZE {
            return Err(Chip8Error::AddressOutOfRange);
        }
        let ghost s = self@;
        let mut idx: usize = 0;
        while idx <= x
            invariant
                idx <= x + 1,
                x < 16,
                at == s.i,
                at + x < MEMORY_SIZE,
                self@ == (MachineState { v: self@.v, ..s }),
                forall|k: int|
                    0 <= k < 16 ==> self.v@[k] == if k < idx {
                        s.memory[at + k]
                    } else {
                        s.v[k]
                    },
            decreases x + 1 - idx,
        {
            self.v[idx] = self.memory[at + idx];
            idx += 1;
        }
        assert(self.v@ =~= Seq::new(
            16,
            |k: int| if k <= x { s.memory[s.i + k] } else { s.v[k] },
        ));
        Ok(())
    }
}

} // verus!
