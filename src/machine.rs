use vstd::prelude::*;

use crate::instruction::{decode, decode_spec, Instr};

verus! {

/// Bytes of addressable memory.
pub const MEMORY_SIZE: usize = 4096;

/// Address at which programs are loaded and execution starts.
pub const PROGRAM_START: usize = 0x200;

/// Framebuffer width in pixels.
pub const DISPLAY_WIDTH: usize = 64;

/// Framebuffer height in pixels.
pub const DISPLAY_HEIGHT: usize = 32;

/// Number of framebuffer pixels, one byte each.
pub const DISPLAY_SIZE: usize = 2048;

/// Index of the register that doubles as carry, borrow and collision flag.
pub const FLAG: usize = 15;

/// Input latch value meaning that no key is held.
pub const NO_KEY: u8 = 0xff;

/// The built-in hexadecimal glyphs, 5 rows of 4 pixels for each digit 0-F.
pub open spec fn glyph_spec() -> Seq<u8> {
    seq![
        0xF0u8, 0x90, 0x90, 0x90, 0xF0, 0x20, 0x60, 0x20, 0x20, 0x70,
        0xF0, 0x10, 0xF0, 0x80, 0xF0, 0xF0, 0x10, 0xF0, 0x10, 0xF0,
        0x90, 0x90, 0xF0, 0x10, 0x10, 0xF0, 0x80, 0xF0, 0x10, 0xF0,
        0xF0, 0x80, 0xF0, 0x90, 0xF0, 0xF0, 0x10, 0x20, 0x40, 0x40,
        0xF0, 0x90, 0xF0, 0x90, 0xF0, 0xF0, 0x90, 0xF0, 0x10, 0xF0,
        0xF0, 0x90, 0xF0, 0x90, 0x90, 0xE0, 0x90, 0xE0, 0x90, 0xE0,
        0xF0, 0x80, 0x80, 0x80, 0xF0, 0xE0, 0x90, 0x90, 0x90, 0xE0,
        0xF0, 0x80, 0xF0, 0x80, 0xF0, 0xF0, 0x80, 0xF0, 0x80, 0x80,
    ]
}

/// Why a program could not be loaded.
#[derive(PartialEq, Eq, Structural, Debug, Clone, Copy)]
pub enum LoadError {
    /// The program does not fit between the program start and the end of memory.
    TooLarge,
}

/// A condition that a step reports to its caller. Execution may go on after
/// any of them: the faulting instruction has changed nothing but the program
/// counter advance made before it ran.
#[derive(PartialEq, Eq, Structural, Debug, Clone, Copy)]
pub enum Fault {
    /// The opcode is not part of the instruction set.
    UnknownInstruction(u16),
    /// A call was made with all 16 stack slots in use.
    StackOverflow,
    /// A return was made with an empty stack.
    StackUnderflow,
}

/// The machine state as mathematical values.
#[verifier::ext_equal]
pub struct MachineView {
    pub memory: Seq<u8>,
    pub v: Seq<u8>,
    pub stack: Seq<u16>,
    pub sp: u16,
    pub i: u16,
    pub pc: u16,
    pub dt: u8,
    pub st: u8,
    pub key: u8,
    pub shift_using_vy: bool,
    pub increment_i_on_ld: bool,
    pub display: Seq<u8>,
}

/// Row of the sprite that covers pixel `p` when drawing at row `vy`.
pub open spec fn sprite_row_of(vy: u8, p: int) -> int {
    (p / 64 - vy as int) % 32
}

/// Bit column of the sprite that covers pixel `p` when drawing at column `vx`.
pub open spec fn sprite_col_of(vx: u8, p: int) -> int {
    (p % 64 - vx as int) % 64
}

/// Bit `f` of a sprite row, counted from the most significant bit.
pub open spec fn sprite_bit(b: u8, f: int) -> bool {
    (b >> ((7 - f) as u8)) & 1u8 == 1u8
}

/// Whether drawing `n` rows from memory at I at (vx, vy) flips pixel `p`.
pub open spec fn draw_hit(s: MachineView, vx: u8, vy: u8, n: u8, p: int) -> bool {
    let k = sprite_row_of(vy, p);
    let f = sprite_col_of(vx, p);
    k < n && f < 8 && sprite_bit(s.memory[(s.i + k) % 4096], f)
}

/// Whether that draw flips some lit pixel off.
pub open spec fn collision_spec(s: MachineView, vx: u8, vy: u8, n: u8) -> bool {
    exists|p: int| 0 <= p < 2048 && #[trigger] draw_hit(s, vx, vy, n, p) && s.display[p] != 0
}

/// The 16-bit opcode at `pc`, big-endian, with addresses taken modulo memory size.
pub open spec fn fetch_spec(s: MachineView) -> u16 {
    (s.memory[s.pc as int % 4096] as int * 256 + s.memory[(s.pc as int + 1) % 4096] as int) as u16
}

/// Whether pixel `p` is flipped by one of the sprite bits that come before
/// row `k0`, bit `f0`.
pub open spec fn drawn_before(s: MachineView, vx: u8, vy: u8, n: u8, k0: int, f0: int, p: int) -> bool {
    &&& draw_hit(s, vx, vy, n, p)
    &&& (sprite_row_of(vy, p) < k0 || (sprite_row_of(vy, p) == k0 && sprite_col_of(vx, p) < f0))
}

/// Pixel `p` once the sprite bits before row `k0`, bit `f0` are drawn.
pub open spec fn drawn_pixel(s: MachineView, vx: u8, vy: u8, n: u8, k0: int, f0: int, p: int) -> u8 {
    if drawn_before(s, vx, vy, n, k0, f0, p) {
        if s.display[p] != 0 { 0u8 } else { 1u8 }
    } else {
        s.display[p]
    }
}

/// Sprite row `k`, bit `f` lands on exactly one pixel.
pub(crate) proof fn lemma_pixel(vx: u8, vy: u8, k: int, f: int)
    requires
        0 <= k < 32,
        0 <= f < 64,
    ensures
        ({
            let p = ((vy + k) % 32) * 64 + (vx + f) % 64;
            &&& 0 <= p < 2048
            &&& p / 64 == (vy + k) % 32
            &&& p % 64 == (vx + f) % 64
            &&& sprite_row_of(vy, p) == k
            &&& sprite_col_of(vx, p) == f
        }),
        forall|q: int|
            0 <= q < 2048 && #[trigger] sprite_row_of(vy, q) == k && sprite_col_of(vx, q) == f
                ==> q == ((vy + k) % 32) * 64 + (vx + f) % 64,
{
    let r = (vy + k) % 32;
    let c = (vx + f) % 64;
    let p = r * 64 + c;
    assert(p / 64 == r && p % 64 == c);
    assert forall|q: int|
        0 <= q < 2048 && #[trigger] sprite_row_of(vy, q) == k && sprite_col_of(vx, q) == f
            implies q == p by {
        assert(q / 64 == r);
        assert(q % 64 == c);
    }
}

/// Drawing bit `f` of row `k` adds at most its own pixel to those flipped.
proof fn lemma_drawn_step(s: MachineView, vx: u8, vy: u8, n: u8, k: int, f: int)
    requires
        s.wf(),
        0 <= k < n < 16,
        0 <= f < 8,
    ensures
        ({
            let p = ((vy + k) % 32) * 64 + (vx + f) % 64;
            &&& drawn_before(s, vx, vy, n, k, f + 1, p) == sprite_bit(
                s.memory[(s.i + k) % 4096],
                f,
            )
            &&& !drawn_before(s, vx, vy, n, k, f, p)
            &&& forall|q: int|
                0 <= q < 2048 && q != p ==> drawn_before(s, vx, vy, n, k, f + 1, q)
                    == #[trigger] drawn_before(s, vx, vy, n, k, f, q)
        }),
{
    lemma_pixel(vx, vy, k, f);
}

impl MachineView {
    /// The invariant of every machine.
    pub open spec fn wf(self) -> bool {
        &&& self.memory.len() == 4096
        &&& self.v.len() == 16
        &&& self.stack.len() == 16
        &&& self.display.len() == 2048
        &&& self.sp <= 16
        &&& self.i <= 0xfff
        &&& forall|p: int| 0 <= p < 2048 ==> #[trigger] self.display[p] <= 1
    }

    /// The program counter advanced past one more instruction when `cond` holds.
    pub open spec fn skip_if(self, cond: bool) -> MachineView {
        if cond {
            MachineView { pc: ((self.pc + 2) % 65536) as u16, ..self }
        } else {
            self
        }
    }

    pub open spec fn set_v(self, x: int, b: u8) -> MachineView {
        MachineView { v: self.v.update(x, b), ..self }
    }

    /// Vx is written first and the flag register last.
    pub open spec fn set_v_flag(self, x: int, b: u8, flag: u8) -> MachineView {
        MachineView { v: self.v.update(x, b).update(15, flag), ..self }
    }

    /// The index register after a block transfer of registers 0..=x.
    pub open spec fn index_after_block(self, x: int) -> u16 {
        if self.increment_i_on_ld {
            ((self.i + x + 1) % 4096) as u16
        } else {
            self.i
        }
    }

    /// The state after executing `ins`, with `rnd` as the random byte.
    pub open spec fn exec(self, ins: Instr, rnd: u8) -> MachineView {
        let v = self.v;
        match ins {
            Instr::Cls => MachineView { display: Seq::new(2048, |p: int| 0u8), ..self },
            Instr::Ret => if self.sp == 0 {
                self
            } else {
                MachineView { pc: self.stack[self.sp - 1], sp: (self.sp - 1) as u16, ..self }
            },
            Instr::Jp { addr } => MachineView { pc: addr, ..self },
            Instr::Call { addr } => if self.sp == 16 {
                self
            } else {
                MachineView {
                    stack: self.stack.update(self.sp as int, self.pc),
                    sp: (self.sp + 1) as u16,
                    pc: addr,
                    ..self
                }
            },
            Instr::SeByte { x, kk } => self.skip_if(v[x as int] == kk),
            Instr::SneByte { x, kk } => self.skip_if(v[x as int] != kk),
            Instr::SeReg { x, y } => self.skip_if(v[x as int] == v[y as int]),
            Instr::SneReg { x, y } => self.skip_if(v[x as int] != v[y as int]),
            Instr::LdByte { x, kk } => self.set_v(x as int, kk),
            Instr::AddByte { x, kk } => self.set_v(x as int, ((v[x as int] + kk) % 256) as u8),
            Instr::LdReg { x, y } => self.set_v(x as int, v[y as int]),
            Instr::Or { x, y } => self.set_v(x as int, v[x as int] | v[y as int]),
            Instr::And { x, y } => self.set_v(x as int, v[x as int] & v[y as int]),
            Instr::Xor { x, y } => self.set_v(x as int, v[x as int] ^ v[y as int]),
            Instr::AddReg { x, y } => self.set_v_flag(
                x as int,
                ((v[x as int] + v[y as int]) % 256) as u8,
                if v[x as int] + v[y as int] > 255 { 1 } else { 0 },
            ),
            Instr::Sub { x, y } => self.set_v_flag(
                x as int,
                ((v[x as int] - v[y as int] + 256) % 256) as u8,
                if v[x as int] >= v[y as int] { 1 } else { 0 },
            ),
            Instr::Subn { x, y } => self.set_v_flag(
                x as int,
                ((v[y as int] - v[x as int] + 256) % 256) as u8,
                if v[y as int] >= v[x as int] { 1 } else { 0 },
            ),
            Instr::Shr { x, y } => {
                let src = if self.shift_using_vy { v[y as int] } else { v[x as int] };
                self.set_v_flag(x as int, src / 2, src % 2)
            },
            Instr::Shl { x, y } => {
                let src = if self.shift_using_vy { v[y as int] } else { v[x as int] };
                self.set_v_flag(x as int, ((src * 2) % 256) as u8, src / 128)
            },
            Instr::LdI { addr } => MachineView { i: addr, ..self },
            Instr::JpV0 { addr } => MachineView { pc: ((addr + v[0]) % 65536) as u16, ..self },
            Instr::Rnd { x, kk } => self.set_v(x as int, rnd & kk),
            Instr::Drw { x, y, n } => {
                let vx = v[x as int];
                let vy = v[y as int];
                MachineView {
                    display: Seq::new(
                        2048,
                        |p: int|
                            if draw_hit(self, vx, vy, n, p) {
                                if self.display[p] != 0 { 0u8 } else { 1u8 }
                            } else {
                                self.display[p]
                            },
                    ),
                    v: v.update(15, if collision_spec(self, vx, vy, n) { 1u8 } else { 0u8 }),
                    ..self
                }
            },
            Instr::Skp { x } => self.skip_if(self.key == v[x as int]),
            Instr::Sknp { x } => self.skip_if(self.key != v[x as int]),
            Instr::LdVxDt { x } => self.set_v(x as int, self.dt),
            Instr::LdVxK { x } => if self.key != NO_KEY {
                self.set_v(x as int, self.key)
            } else {
                MachineView { pc: ((self.pc + 65534) % 65536) as u16, ..self }
            },
            Instr::LdDtVx { x } => MachineView { dt: v[x as int], ..self },
            Instr::LdStVx { x } => MachineView { st: v[x as int], ..self },
            Instr::AddI { x } => {
                let sum = self.i + v[x as int];
                MachineView {
                    i: (sum % 4096) as u16,
                    v: v.update(15, if sum > 0xfff { 1u8 } else { 0u8 }),
                    ..self
                }
            },
            Instr::LdF { x } => MachineView { i: (v[x as int] * 5) as u16, ..self },
            Instr::LdB { x } => {
                let b = v[x as int];
                MachineView {
                    memory: self.memory.update(self.i as int, b / 100).update(
                        (self.i + 1) % 4096,
                        ((b / 10) % 10) as u8,
                    ).update((self.i + 2) % 4096, b % 10),
                    ..self
                }
            },
            Instr::StoreRegs { x } => MachineView {
                memory: Seq::new(
                    4096,
                    |a: int|
                        if (a - self.i) % 4096 <= x {
                            v[(a - self.i) % 4096]
                        } else {
                            self.memory[a]
                        },
                ),
                i: self.index_after_block(x as int),
                ..self
            },
            Instr::LoadRegs { x } => MachineView {
                v: Seq::new(
                    16,
                    |k: int|
                        if k <= x {
                            self.memory[(self.i + k) % 4096]
                        } else {
                            v[k]
                        },
                ),
                i: self.index_after_block(x as int),
                ..self
            },
            Instr::Unknown { .. } => self,
        }
    }

    /// What executing `ins` reports.
    pub open spec fn fault(self, ins: Instr) -> Option<Fault> {
        match ins {
            Instr::Ret => if self.sp == 0 {
                Some(Fault::StackUnderflow)
            } else {
                None
            },
            Instr::Call { .. } => if self.sp == 16 {
                Some(Fault::StackOverflow)
            } else {
                None
            },
            Instr::Unknown { opcode } => Some(Fault::UnknownInstruction(opcode)),
            _ => None,
        }
    }

    /// The state once the program counter has moved past the fetched opcode.
    pub open spec fn advanced(self) -> MachineView {
        MachineView { pc: ((self.pc + 2) % 65536) as u16, ..self }
    }

    /// The state after one fetch-decode-execute cycle.
    pub open spec fn step_spec(self, rnd: u8) -> MachineView {
        self.advanced().exec(decode_spec(fetch_spec(self)), rnd)
    }

    /// What one fetch-decode-execute cycle reports.
    pub open spec fn step_fault(self) -> Option<Fault> {
        self.advanced().fault(decode_spec(fetch_spec(self)))
    }

    /// The state after one 60 Hz tick: each non-zero timer goes down by one.
    pub open spec fn tick(self) -> MachineView {
        MachineView {
            dt: if self.dt > 0 { (self.dt - 1) as u8 } else { 0 },
            st: if self.st > 0 { (self.st - 1) as u8 } else { 0 },
            ..self
        }
    }

    /// The state after loading `rom` at the program start.
    pub open spec fn loaded(self, rom: Seq<u8>) -> MachineView {
        MachineView {
            memory: self.memory.subrange(0, 0x200) + rom + self.memory.subrange(
                0x200 + rom.len() as int,
                4096,
            ),
            ..self.reset_from()
        }
    }

    /// The state that every load starts from: zeroed registers, stack and
    /// timers, a blank framebuffer, no key, and the counter at the program start.
    pub open spec fn reset_from(self) -> MachineView {
        MachineView {
            v: Seq::new(16, |k: int| 0u8),
            stack: Seq::new(16, |k: int| 0u16),
            sp: 0,
            i: 0,
            pc: 0x200,
            dt: 0,
            st: 0,
            key: NO_KEY,
            display: Seq::new(2048, |p: int| 0u8),
            ..self
        }
    }
}

/// The result that reports `f`, if any.
pub open spec fn fault_result(f: Option<Fault>) -> Result<(), Fault> {
    match f {
        Some(e) => Err(e),
        None => Ok(()),
    }
}

/// A CHIP-8 machine.
pub struct Chip8 {
    memory: [u8; 4096],
    reg_v: [u8; 16],
    stack: [u16; 16],
    reg_sp: u16,
    reg_i: u16,
    reg_pc: u16,
    reg_dt: u8,
    reg_st: u8,
    key_pressed: u8,
    /// Shifts read Vy and write the result to Vx, instead of shifting Vx in place.
    pub shift_using_vy: bool,
    /// Block transfers of registers advance the index register past the block.
    pub increment_i_on_ld: bool,
    display: [u8; 2048],
}

impl View for Chip8 {
    type V = MachineView;

    closed spec fn view(&self) -> MachineView {
        MachineView {
            memory: self.memory@,
            v: self.reg_v@,
            stack: self.stack@,
            sp: self.reg_sp,
            i: self.reg_i,
            pc: self.reg_pc,
            dt: self.reg_dt,
            st: self.reg_st,
            key: self.key_pressed,
            shift_using_vy: self.shift_using_vy,
            increment_i_on_ld: self.increment_i_on_ld,
            display: self.display@,
        }
    }
}

impl Chip8 {
    pub open spec fn wf(&self) -> bool {
        self@.wf()
    }

    /// A machine with the glyphs at the bottom of memory, everything else
    /// zeroed, no key held, both quirks off, and the counter at the program start.
    pub fn new() -> (r: Chip8)
        ensures
            r.wf(),
            r@.memory.subrange(0, 80) == glyph_spec(),
            forall|a: int| 80 <= a < 4096 ==> #[trigger] r@.memory[a] == 0,
            r@ == r@.reset_from(),
            !r@.shift_using_vy,
            !r@.increment_i_on_ld,
    {
        let glyphs: [u8; 80] = [
            0xF0, 0x90, 0x90, 0x90, 0xF0, 0x20, 0x60, 0x20, 0x20, 0x70,
            0xF0, 0x10, 0xF0, 0x80, 0xF0, 0xF0, 0x10, 0xF0, 0x10, 0xF0,
            0x90, 0x90, 0xF0, 0x10, 0x10, 0xF0, 0x80, 0xF0, 0x10, 0xF0,
            0xF0, 0x80, 0xF0, 0x90, 0xF0, 0xF0, 0x10, 0x20, 0x40, 0x40,
            0xF0, 0x90, 0xF0, 0x90, 0xF0, 0xF0, 0x90, 0xF0, 0x10, 0xF0,
            0xF0, 0x90, 0xF0, 0x90, 0x90, 0xE0, 0x90, 0xE0, 0x90, 0xE0,
            0xF0, 0x80, 0x80, 0x80, 0xF0, 0xE0, 0x90, 0x90, 0x90, 0xE0,
            0xF0, 0x80, 0xF0, 0x80, 0xF0, 0xF0, 0x80, 0xF0, 0x80, 0x80,
        ];
        assert(glyphs@ =~= glyph_spec());
        let mut chip8 = Chip8 {
            memory: [0; 4096],
            reg_v: [0; 16],
            stack: [0; 16],
            reg_sp: 0,
            reg_i: 0,
            reg_pc: 0x200,
            reg_dt: 0,
            reg_st: 0,
            key_pressed: NO_KEY,
            shift_using_vy: false,
            increment_i_on_ld: false,
            display: [0; 2048],
        };
        let mut k: usize = 0;
        while k < 80
            invariant
                k <= 80,
                chip8@ == (MachineView { memory: chip8@.memory, ..chip8@ }),
                chip8@.memory.len() == 4096,
                forall|a: int| 0 <= a < k ==> chip8@.memory[a] == glyph_spec()[a],
                forall|a: int| k <= a < 4096 ==> chip8@.memory[a] == 0,
                chip8@.v =~= Seq::new(16, |j: int| 0u8),
                chip8@.stack =~= Seq::new(16, |j: int| 0u16),
                chip8@.display =~= Seq::new(2048, |p: int| 0u8),
                chip8.reg_sp == 0 && chip8.reg_i == 0 && chip8.reg_pc == 0x200,
                chip8.reg_dt == 0 && chip8.reg_st == 0 && chip8.key_pressed == NO_KEY,
                !chip8.shift_using_vy && !chip8.increment_i_on_ld,
                glyphs@ == glyph_spec(),
            decreases 80 - k,
        {
            chip8.memory[k] = glyphs[k];
            k = k + 1;
        }
        assert(chip8@.memory.subrange(0, 80) =~= glyph_spec());
        assert(chip8@ =~= chip8@.reset_from());
        chip8
    }

    /// Latches `key` as the key held; `NO_KEY` means none.
    pub fn set_key_pressed(&mut self, key: u8)
        requires
            old(self).wf(),
        ensures
            final(self).wf(),
            final(self)@ == (MachineView { key, ..old(self)@ }),
    {
        self.key_pressed = key;
    }

    /// The framebuffer, 64 pixels per row, 32 rows, each 0 or 1.
    pub fn get_display_data(&self) -> (r: &[u8])
        ensures
            r@ == self@.display,
    {
        self.display.as_slice()
    }

    /// Turns every pixel off.
    pub fn clear_display(&mut self)
        requires
            old(self).wf(),
        ensures
            final(self).wf(),
            final(self)@ == old(self)@.exec(Instr::Cls, 0),
    {
        let mut p: usize = 0;
        while p < 2048
            invariant
                p <= 2048,
                old(self).wf(),
                self@ == (MachineView { display: self@.display, ..old(self)@ }),
                self@.display.len() == 2048,
                forall|q: int| 0 <= q < p ==> self@.display[q] == 0,
                forall|q: int| p <= q < 2048 ==> self@.display[q] == old(self)@.display[q],
            decreases 2048 - p,
        {
            self.display[p] = 0;
            p = p + 1;
        }
        assert(self@ =~= old(self)@.exec(Instr::Cls, 0));
    }

    /// One 60 Hz tick: each non-zero timer goes down by one.
    pub fn update_timers(&mut self)
        requires
            old(self).wf(),
        ensures
            final(self).wf(),
            final(self)@ == old(self)@.tick(),
    {
        if self.reg_dt > 0 {
            self.reg_dt = self.reg_dt - 1;
        }
        if self.reg_st > 0 {
            self.reg_st = self.reg_st - 1;
        }
    }

    /// Loads `rom` at the program start and resets the machine to run it.
    /// A program longer than the memory above the program start is refused,
    /// and the machine is then left as it was.
    pub fn boot_rom(&mut self, rom: &[u8]) -> (r: Result<(), LoadError>)
        requires
            old(self).wf(),
        ensures
            final(self).wf(),
            rom@.len() > 4096 - 0x200 ==> r == Err::<(), LoadError>(LoadError::TooLarge)
                && final(self)@ == old(self)@,
            rom@.len() <= 4096 - 0x200 ==> r is Ok && final(self)@ == old(self)@.loaded(rom@),
    {
        if rom.len() > MEMORY_SIZE - PROGRAM_START {
            return Err(LoadError::TooLarge);
        }
        let mut k: usize = 0;
        while k < rom.len()
            invariant
                k <= rom@.len() <= 4096 - 0x200,
                old(self).wf(),
                self@ == (MachineView { memory: self@.memory, ..old(self)@ }),
                self@.memory.len() == 4096,
                forall|a: int| 0 <= a < 0x200 ==> self@.memory[a] == old(self)@.memory[a],
                forall|a: int| 0 <= a < k ==> self@.memory[0x200 + a] == rom@[a],
                forall|a: int|
                    0x200 + k <= a < 4096 ==> self@.memory[a] == old(self)@.memory[a],
            decreases rom@.len() - k,
        {
            self.memory[PROGRAM_START + k] = rom[k];
            k = k + 1;
        }
        self.key_pressed = NO_KEY;
        self.reg_sp = 0;
        self.reg_i = 0;
        self.reg_pc = PROGRAM_START as u16;
        self.reg_dt = 0;
        self.reg_st = 0;
        let mut j: usize = 0;
        while j < 16
            invariant
                j <= 16,
                self@.v.len() == 16 && self@.stack.len() == 16,
                forall|a: int| 0 <= a < j ==> self@.v[a] == 0 && self@.stack[a] == 0,
                self@.display == old(self)@.display,
                self@.display.len() == 2048,
                self@.memory.len() == 4096,
                old(self).wf(),
                forall|a: int| 0 <= a < 0x200 ==> self@.memory[a] == old(self)@.memory[a],
                forall|a: int| 0 <= a < rom@.len() ==> self@.memory[0x200 + a] == rom@[a],
                forall|a: int|
                    0x200 + rom@.len() <= a < 4096 ==> self@.memory[a] == old(self)@.memory[a],
                self.key_pressed == NO_KEY && self.reg_sp == 0 && self.reg_i == 0,
                self.reg_pc == 0x200 && self.reg_dt == 0 && self.reg_st == 0,
                self.shift_using_vy == old(self).shift_using_vy,
                self.increment_i_on_ld == old(self).increment_i_on_ld,
            decreases 16 - j,
        {
            self.stack[j] = 0;
            self.reg_v[j] = 0;
            j = j + 1;
        }
        self.clear_display();
        assert(self@.memory =~= old(self)@.memory.subrange(0, 0x200) + rom@
            + old(self)@.memory.subrange(0x200 + rom@.len() as int, 4096));
        assert(self@ =~= (MachineView {
            memory: self@.memory,
            ..old(self)@.reset_from()
        }));
        Ok(())
    }

    /// The program counter moved past one more instruction.
    fn skip(&mut self)
        requires
            old(self).wf(),
        ensures
            final(self).wf(),
            final(self)@ == old(self)@.skip_if(true),
    {
        self.reg_pc = ((self.reg_pc as u32 + 2) % 65536) as u16;
    }

    /// Draws `n` sprite rows from memory at I at (Vx mod 64, Vy mod 32),
    /// wrapping at the edges; VF tells whether a lit pixel went off.
    fn draw(&mut self, x: usize, y: usize, n: u8)
        requires
            old(self).wf(),
            x < 16,
            y < 16,
            n < 16,
        ensures
            final(self).wf(),
            final(self)@ == old(self)@.exec(Instr::Drw { x, y, n }, 0),
    {
        let ghost s0 = self@;
        let vx = self.reg_v[x];
        let vy = self.reg_v[y];
        let base = self.reg_i as usize;
        let mut collided = false;
        let mut k: u8 = 0;
        while k < n
            invariant
                k <= n < 16,
                x < 16 && y < 16,
                s0 == old(self)@,
                s0.wf(),
                vx == s0.v[x as int],
                vy == s0.v[y as int],
                base == s0.i,
                self@ == (MachineView { display: self@.display, ..s0 }),
                self@.display.len() == 2048,
                forall|p: int|
                    0 <= p < 2048 ==> #[trigger] self@.display[p] == drawn_pixel(
                        s0,
                        vx,
                        vy,
                        n,
                        k as int,
                        0,
                        p,
                    ),
                collided == exists|p: int|
                    0 <= p < 2048 && #[trigger] drawn_before(s0, vx, vy, n, k as int, 0, p)
                        && s0.display[p] != 0,
            decreases n - k,
        {
            let sprite = self.memory[(base + k as usize) % 4096];
            let row = (vy as usize + k as usize) % 32;
            let mut f: u8 = 0;
            while f < 8
                invariant
                    k < n < 16,
                    x < 16 && y < 16,
                    f <= 8,
                    s0 == old(self)@,
                    s0.wf(),
                    vx == s0.v[x as int],
                    vy == s0.v[y as int],
                    base == s0.i,
                    sprite == s0.memory[(s0.i + k) % 4096],
                    row == (vy + k) % 32,
                    self@ == (MachineView { display: self@.display, ..s0 }),
                    self@.display.len() == 2048,
                    forall|p: int|
                        0 <= p < 2048 ==> #[trigger] self@.display[p] == drawn_pixel(
                            s0,
                            vx,
                            vy,
                            n,
                            k as int,
                            f as int,
                            p,
                        ),
                    collided == exists|p: int|
                        0 <= p < 2048 && #[trigger] drawn_before(
                            s0,
                            vx,
                            vy,
                            n,
                            k as int,
                            f as int,
                            p,
                        ) && s0.display[p] != 0,
                decreases 8 - f,
            {
                let bit = (sprite >> (7 - f)) & 1;
                let col = (vx as usize + f as usize) % 64;
                let offset = row * 64 + col;
                proof {
                    lemma_pixel(vx, vy, k as int, f as int);
                    lemma_drawn_step(s0, vx, vy, n, k as int, f as int);
                }
                let ghost before = collided;
                let ghost p0 = offset as int;
                let ghost old_pixel = self@.display[p0];
                if bit == 1 {
                    if self.display[offset] != 0 {
                        self.display[offset] = 0;
                        collided = true;
                    } else {
                        self.display[offset] = 1;
                    }
                }
                proof {
                    if collided {
                        if !before {
                            assert(old_pixel == s0.display[p0]);
                            assert(drawn_before(s0, vx, vy, n, k as int, f + 1, p0));
                        } else {
                            let w = choose|p: int|
                                0 <= p < 2048 && #[trigger] drawn_before(
                                    s0,
                                    vx,
                                    vy,
                                    n,
                                    k as int,
                                    f as int,
                                    p,
                                ) && s0.display[p] != 0;
                            assert(w != p0);
                            assert(drawn_before(s0, vx, vy, n, k as int, f + 1, w));
                        }
                    } else {
                        assert forall|p: int| 0 <= p < 2048 implies !(#[trigger] drawn_before(
                            s0,
                            vx,
                            vy,
                            n,
                            k as int,
                            f + 1,
                            p,
                        ) && s0.display[p] != 0) by {
                            if p != p0 {
                                assert(drawn_before(s0, vx, vy, n, k as int, f + 1, p)
                                    == drawn_before(s0, vx, vy, n, k as int, f as int, p));
                            } else {
                                assert(old_pixel == s0.display[p0]);
                            }
                        }
                    }
                }
                f = f + 1;
            }
            proof {
                assert forall|p: int| 0 <= p < 2048 implies drawn_before(
                    s0,
                    vx,
                    vy,
                    n,
                    k as int,
                    8,
                    p,
                ) == #[trigger] drawn_before(s0, vx, vy, n, k + 1, 0, p) by {}
                if collided {
                    let w = choose|p: int|
                        0 <= p < 2048 && #[trigger] drawn_before(s0, vx, vy, n, k as int, 8, p)
                            && s0.display[p] != 0;
                    assert(drawn_before(s0, vx, vy, n, k + 1, 0, w));
                }
            }
            k = k + 1;
        }
        proof {
            assert forall|p: int| 0 <= p < 2048 implies drawn_before(
                s0,
                vx,
                vy,
                n,
                n as int,
                0,
                p,
            ) == #[trigger] draw_hit(s0, vx, vy, n, p) by {}
            if collided {
                let w = choose|p: int|
                    0 <= p < 2048 && #[trigger] drawn_before(s0, vx, vy, n, n as int, 0, p)
                        && s0.display[p] != 0;
                assert(draw_hit(s0, vx, vy, n, w));
            }
        }
        self.reg_v[FLAG] = if collided { 1 } else { 0 };
        assert(self@ =~= old(self)@.exec(Instr::Drw { x, y, n }, 0));
    }

    /// Stores the hundreds, tens and units of Vx at I, I+1 and I+2.
    fn store_bcd(&mut self, x: usize)
        requires
            old(self).wf(),
            x < 16,
        ensures
            final(self).wf(),
            final(self)@ == old(self)@.exec(Instr::LdB { x }, 0),
    {
        let b = self.reg_v[x];
        let i = self.reg_i as usize;
        self.memory[i] = b / 100;
        self.memory[(i + 1) % 4096] = (b / 10) % 10;
        self.memory[(i + 2) % 4096] = b % 10;
    }

    /// Copies V0..=Vx to memory from I on.
    fn store_registers(&mut self, x: usize)
        requires
            old(self).wf(),
            x < 16,
        ensures
            final(self).wf(),
            final(self)@ == old(self)@.exec(Instr::StoreRegs { x }, 0),
    {
        let i = self.reg_i as usize;
        let mut k: usize = 0;
        while k <= x
            invariant
                k <= x + 1,
                x < 16,
                old(self).wf(),
                i == old(self)@.i,
                self@ == (MachineView { memory: self@.memory, ..old(self)@ }),
                self@.memory.len() == 4096,
                forall|a: int|
                    0 <= a < 4096 ==> #[trigger] self@.memory[a] == if (a - i) % 4096 < k {
                        old(self)@.v[(a - i) % 4096]
                    } else {
                        old(self)@.memory[a]
                    },
            decreases x + 1 - k,
        {
            self.memory[(i + k) % 4096] = self.reg_v[k];
            k = k + 1;
        }
        if self.increment_i_on_ld {
            self.reg_i = ((i + x + 1) % 4096) as u16;
        }
        assert(self@ =~= old(self)@.exec(Instr::StoreRegs { x }, 0));
    }

    /// Copies memory from I on into V0..=Vx.
    fn load_registers(&mut self, x: usize)
        requires
            old(self).wf(),
            x < 16,
        ensures
            final(self).wf(),
            final(self)@ == old(self)@.exec(Instr::LoadRegs { x }, 0),
    {
        let i = self.reg_i as usize;
        let mut k: usize = 0;
        while k <= x
            invariant
                k <= x + 1,
                x < 16,
                old(self).wf(),
                i == old(self)@.i,
                self@ == (MachineView { v: self@.v, ..old(self)@ }),
                self@.v.len() == 16,
                forall|j: int|
                    0 <= j < 16 ==> #[trigger] self@.v[j] == if j < k {
                        old(self)@.memory[(i + j) % 4096]
                    } else {
                        old(self)@.v[j]
                    },
            decreases x + 1 - k,
        {
            self.reg_v[k] = self.memory[(i + k) % 4096];
            k = k + 1;
        }
        if self.increment_i_on_ld {
            self.reg_i = ((i + x + 1) % 4096) as u16;
        }
        assert(self@ =~= old(self)@.exec(Instr::LoadRegs { x }, 0));
    }

    /// Executes one decoded instruction, with `rnd` as the random byte.
    pub fn execute(&mut self, ins: Instr, rnd: u8) -> (r: Result<(), Fault>)
        requires
            old(self).wf(),
            ins.wf(),
        ensures
            final(self).wf(),
            final(self)@ == old(self)@.exec(ins, rnd),
            r == fault_result(old(self)@.fault(ins)),
    {
        match ins {
            Instr::Cls => self.clear_display(),
            Instr::Ret => {
                if self.reg_sp == 0 {
                    return Err(Fault::StackUnderflow);
                }
                self.reg_sp = self.reg_sp - 1;
                self.reg_pc = self.stack[self.reg_sp as usize];
            },
            Instr::Jp { addr } => self.reg_pc = addr,
            Instr::Call { addr } => {
                if self.reg_sp == 16 {
                    return Err(Fault::StackOverflow);
                }
                self.stack[self.reg_sp as usize] = self.reg_pc;
                self.reg_sp = self.reg_sp + 1;
                self.reg_pc = addr;
            },
            Instr::SeByte { x, kk } => if self.reg_v[x] == kk {
                self.skip()
            },
            Instr::SneByte { x, kk } => if self.reg_v[x] != kk {
                self.skip()
            },
            Instr::SeReg { x, y } => if self.reg_v[x] == self.reg_v[y] {
                self.skip()
            },
            Instr::SneReg { x, y } => if self.reg_v[x] != self.reg_v[y] {
                self.skip()
            },
            Instr::LdByte { x, kk } => self.reg_v[x] = kk,
            Instr::AddByte { x, kk } => {
                self.reg_v[x] = ((self.reg_v[x] as u16 + kk as u16) % 256) as u8;
            },
            Instr::LdReg { x, y } => self.reg_v[x] = self.reg_v[y],
            Instr::Or { x, y } => self.reg_v[x] = self.reg_v[x] | self.reg_v[y],
            Instr::And { x, y } => self.reg_v[x] = self.reg_v[x] & self.reg_v[y],
            Instr::Xor { x, y } => self.reg_v[x] = self.reg_v[x] ^ self.reg_v[y],
            Instr::AddReg { x, y } => {
                let sum = self.reg_v[x] as u16 + self.reg_v[y] as u16;
                self.reg_v[x] = (sum % 256) as u8;
                self.reg_v[FLAG] = if sum > 255 { 1 } else { 0 };
            },
            Instr::Sub { x, y } => {
                let vx = self.reg_v[x];
                let vy = self.reg_v[y];
                self.reg_v[x] = ((vx as u16 + 256 - vy as u16) % 256) as u8;
                self.reg_v[FLAG] = if vx >= vy { 1 } else { 0 };
            },
            Instr::Subn { x, y } => {
                let vx = self.reg_v[x];
                let vy = self.reg_v[y];
                self.reg_v[x] = ((vy as u16 + 256 - vx as u16) % 256) as u8;
                self.reg_v[FLAG] = if vy >= vx { 1 } else { 0 };
            },
            Instr::Shr { x, y } => {
                let src = if self.shift_using_vy { self.reg_v[y] } else { self.reg_v[x] };
                self.reg_v[x] = src / 2;
                self.reg_v[FLAG] = src % 2;
            },
            Instr::Shl { x, y } => {
                let src = if self.shift_using_vy { self.reg_v[y] } else { self.reg_v[x] };
                self.reg_v[x] = ((src as u16 * 2) % 256) as u8;
                self.reg_v[FLAG] = src / 128;
            },
            Instr::LdI { addr } => self.reg_i = addr,
            Instr::JpV0 { addr } => {
                self.reg_pc = ((addr as u32 + self.reg_v[0] as u32) % 65536) as u16;
            },
            Instr::Rnd { x, kk } => self.reg_v[x] = rnd & kk,
            Instr::Drw { x, y, n } => self.draw(x, y, n),
            Instr::Skp { x } => if self.key_pressed == self.reg_v[x] {
                self.skip()
            },
            Instr::Sknp { x } => if self.key_pressed != self.reg_v[x] {
                self.skip()
            },
            Instr::LdVxDt { x } => self.reg_v[x] = self.reg_dt,
            Instr::LdVxK { x } => {
                if self.key_pressed != NO_KEY {
                    self.reg_v[x] = self.key_pressed;
                } else {
                    self.reg_pc = ((self.reg_pc as u32 + 65534) % 65536) as u16;
                }
            },
            Instr::LdDtVx { x } => self.reg_dt = self.reg_v[x],
            Instr::LdStVx { x } => self.reg_st = self.reg_v[x],
            Instr::AddI { x } => {
                let sum = self.reg_i + self.reg_v[x] as u16;
                self.reg_i = sum % 4096;
                self.reg_v[FLAG] = if sum > 0xfff { 1 } else { 0 };
            },
            Instr::LdF { x } => self.reg_i = self.reg_v[x] as u16 * 5,
            Instr::LdB { x } => self.store_bcd(x),
            Instr::StoreRegs { x } => self.store_registers(x),
            Instr::LoadRegs { x } => self.load_registers(x),
            Instr::Unknown { opcode } => {
                return Err(Fault::UnknownInstruction(opcode));
            },
        }
        assert(self@ =~= old(self)@.exec(ins, rnd));
        Ok(())
    }

    /// One fetch-decode-execute cycle with `rnd` as the byte that a random
    /// instruction draws: the counter moves past the opcode before it runs.
    pub fn step_with(&mut self, rnd: u8) -> (r: Result<(), Fault>)
        requires
            old(self).wf(),
        ensures
            final(self).wf(),
            final(self)@ == old(self)@.step_spec(rnd),
            r == fault_result(old(self)@.step_fault()),
    {
        let pc = self.reg_pc as usize;
        let high = self.memory[pc % 4096];
        let low = self.memory[(pc + 1) % 4096];
        let opcode = (high as u16 * 256 + low as u16) as u16;
        self.reg_pc = ((self.reg_pc as u32 + 2) % 65536) as u16;
        let ins = decode(opcode);
        self.execute(ins, rnd)
    }

    /// One fetch-decode-execute cycle, with a fresh random byte for a random
    /// instruction.
    pub fn step(&mut self) -> (r: Result<(), Fault>)
        requires
            old(self).wf(),
        ensures
            final(self).wf(),
            exists|rnd: u8| final(self)@ == #[trigger] old(self)@.step_spec(rnd),
            r == fault_result(old(self)@.step_fault()),
    {
        let rnd = random_byte();
        self.step_with(rnd)
    }
    /// Register Vx.
    pub fn register(&self, x: usize) -> (r: u8)
        requires
            x < 16,
        ensures
            r == self@.v[x as int],
    {
        self.reg_v[x]
    }

    /// The byte at `addr`.
    pub fn memory_at(&self, addr: usize) -> (r: u8)
        requires
            addr < 4096,
        ensures
            r == self@.memory[addr as int],
    {
        self.memory[addr]
    }

    pub fn program_counter(&self) -> (r: u16)
        ensures
            r == self@.pc,
    {
        self.reg_pc
    }

    pub fn index_register(&self) -> (r: u16)
        ensures
            r == self@.i,
    {
        self.reg_i
    }

    /// Number of return addresses on the stack.
    pub fn stack_pointer(&self) -> (r: u16)
        ensures
            r == self@.sp,
    {
        self.reg_sp
    }

    pub fn delay_timer(&self) -> (r: u8)
        ensures
            r == self@.dt,
    {
        self.reg_dt
    }

    pub fn sound_timer(&self) -> (r: u8)
        ensures
            r == self@.st,
    {
        self.reg_st
    }

    /// The latched key, or `NO_KEY`.
    pub fn key_pressed(&self) -> (r: u8)
        ensures
            r == self@.key,
    {
        self.key_pressed
    }
}

/// Relies on rand::random::<u8>, which draws from the thread-local generator:
/// any byte may come back, so nothing is promised of it.
#[verifier::external_body]
fn random_byte() -> (r: u8) {
    rand::random::<u8>()
}

} // verus!
