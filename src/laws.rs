use vstd::prelude::*;

use crate::instruction::{decode_spec, Instr};
use crate::machine::{collision_spec, draw_hit, fetch_spec, sprite_bit, MachineView, NO_KEY};

verus! {

/// After `ldb` the register holds exactly the byte loaded; `add-byte` adds
/// modulo 256 and touches no other register, the flag register included.
pub proof fn law_load_and_add_byte(s: MachineView, x: usize, kk: u8, add: u8, rnd: u8)
    requires
        s.wf(),
        x < 16,
    ensures
        s.exec(Instr::LdByte { x, kk }, rnd).v[x as int] == kk,
        ({
            let t = s.exec(Instr::LdByte { x, kk }, rnd).exec(Instr::AddByte { x, kk: add }, rnd);
            &&& t.v[x as int] == (kk + add) % 256
            &&& forall|j: int| 0 <= j < 16 && j != x ==> #[trigger] t.v[j] == s.v[j]
        }),
{
}

/// Adding registers sets the flag exactly when the unsigned sum passes 255;
/// subtracting sets it exactly when the minuend is at least the subtrahend.
pub proof fn law_arithmetic_flags(s: MachineView, x: usize, y: usize, rnd: u8)
    requires
        s.wf(),
        x < 16,
        y < 16,
    ensures
        s.exec(Instr::AddReg { x, y }, rnd).v[15] == if s.v[x as int] + s.v[y as int] > 255 {
            1u8
        } else {
            0u8
        },
        s.exec(Instr::Sub { x, y }, rnd).v[15] == if s.v[x as int] >= s.v[y as int] {
            1u8
        } else {
            0u8
        },
        s.exec(Instr::Subn { x, y }, rnd).v[15] == if s.v[y as int] >= s.v[x as int] {
            1u8
        } else {
            0u8
        },
        x != 15 ==> s.exec(Instr::AddReg { x, y }, rnd).v[x as int] == (s.v[x as int]
            + s.v[y as int]) % 256,
        x != 15 ==> s.exec(Instr::Sub { x, y }, rnd).v[x as int] == (s.v[x as int]
            - s.v[y as int] + 256) % 256,
{
}

/// A right shift takes its source from Vx, or from Vy when the quirk is on,
/// writes the shifted value to Vx and the bit shifted out to the flag.
pub proof fn law_shift_right_source(s: MachineView, x: usize, y: usize, rnd: u8)
    requires
        s.wf(),
        x < 15,
        y < 16,
    ensures
        ({
            let t = s.exec(Instr::Shr { x, y }, rnd);
            let src = if s.shift_using_vy { s.v[y as int] } else { s.v[x as int] };
            &&& t.v[x as int] == src / 2
            &&& t.v[15] == src % 2
        }),
{
}

/// Drawing the same one-bit sprite twice at the same place on a blank
/// framebuffer lights its pixel with no collision, then turns it off again
/// with a collision.
pub proof fn law_draw_twice(s: MachineView, x: usize, y: usize, bit: u8, rnd: u8)
    requires
        s.wf(),
        x < 15,
        y < 15,
        bit < 8,
        s.memory[s.i as int] == 0x80u8 >> bit,
        forall|p: int| 0 <= p < 2048 ==> #[trigger] s.display[p] == 0,
    ensures
        ({
            let ins = Instr::Drw { x, y, n: 1 };
            let p = ((s.v[y as int] as int) % 32) * 64 + (s.v[x as int] + bit) % 64;
            let once = s.exec(ins, rnd);
            let twice = once.exec(ins, rnd);
            &&& once.display[p] == 1 && once.v[15] == 0
            &&& twice.display[p] == 0 && twice.v[15] == 1
        }),
{
    let ins = Instr::Drw { x, y, n: 1 };
    let vx = s.v[x as int];
    let vy = s.v[y as int];
    let b = 0x80u8 >> bit;
    crate::machine::lemma_pixel(vx, vy, 0, bit as int);
    let p = ((vy + 0) % 32) * 64 + (vx + bit) % 64;
    assert(sprite_bit(b, bit as int)) by (bit_vector)
        requires
            b == 0x80u8 >> bit,
            bit < 8,
    ;
    assert((s.i + 0) % 4096 == s.i as int);
    assert(draw_hit(s, vx, vy, 1, p));
    assert(!collision_spec(s, vx, vy, 1));
    let once = s.exec(ins, rnd);
    assert(once.v[x as int] == vx && once.v[y as int] == vy);
    assert(once.wf()) by {
        assert forall|q: int| 0 <= q < 2048 implies #[trigger] once.display[q] <= 1 by {}
    }
    assert(draw_hit(once, vx, vy, 1, p));
    assert(once.display[p] != 0);
    assert(collision_spec(once, vx, vy, 1));
}

/// A key wait with no key latched leaves the whole machine as it was, so it
/// runs again on every step; with a key latched it stores the key and moves on.
pub proof fn law_key_wait(s: MachineView, rnd: u8)
    requires
        s.wf(),
        decode_spec(fetch_spec(s)) is LdVxK,
    ensures
        s.key == NO_KEY ==> s.step_spec(rnd) == s,
        s.key != NO_KEY ==> ({
            let x = decode_spec(fetch_spec(s))->LdVxK_x;
            &&& s.step_spec(rnd).pc == (s.pc + 2) % 65536
            &&& x < 16
            &&& s.step_spec(rnd).v[x as int] == s.key
        }),
{
    let op = fetch_spec(s);
    assert(((op >> 8u16) & 0xfu16) < 16u16) by (bit_vector);
    if s.key == NO_KEY {
        assert(s.step_spec(rnd) =~= s);
    }
}

/// The state after `n` timer ticks.
pub open spec fn ticks(s: MachineView, n: nat) -> MachineView
    decreases n,
{
    if n == 0 {
        s
    } else {
        ticks(s, (n - 1) as nat).tick()
    }
}

/// Each tick takes one off each timer, down to 0 and no further.
pub proof fn law_timers_count_down(s: MachineView, n: nat)
    ensures
        ticks(s, n).dt == if s.dt >= n { s.dt - n } else { 0 },
        ticks(s, n).st == if s.st >= n { s.st - n } else { 0 },
    decreases n,
{
    if n > 0 {
        law_timers_count_down(s, (n - 1) as nat);
    }
}

/// A loaded program reads back from the program start as it was given, and
/// a load leaves nothing of the registers, stack, timers, key latch or
/// framebuffer that an earlier program left behind.
pub proof fn law_load_round_trip(s: MachineView, first: Seq<u8>, rom: Seq<u8>)
    requires
        s.wf(),
        first.len() <= 4096 - 0x200,
        rom.len() <= 4096 - 0x200,
    ensures
        s.loaded(rom).memory.subrange(0x200, 0x200 + rom.len() as int) == rom,
        ({
            let again = s.loaded(first).loaded(rom);
            let fresh = s.loaded(rom);
            &&& again.v == fresh.v
            &&& again.stack == fresh.stack
            &&& again.sp == fresh.sp && again.i == fresh.i && again.pc == fresh.pc
            &&& again.dt == fresh.dt && again.st == fresh.st && again.key == fresh.key
            &&& again.display == fresh.display
        }),
{
    assert(s.loaded(rom).memory.subrange(0x200, 0x200 + rom.len() as int) =~= rom);
}

} // verus!
