//! A CHIP-8 virtual machine: memory, registers, call stack, timers and a
//! monochrome framebuffer, driven one instruction at a time by a host loop.

mod instruction;
mod laws;
mod machine;


pub use instruction::{decode, decode_spec, Instr};
pub use laws::{
    law_arithmetic_flags, law_draw_twice, law_key_wait, law_load_and_add_byte, law_load_round_trip,
    law_shift_right_source, law_timers_count_down, ticks,
};
pub use machine::{
    collision_spec, draw_hit, fault_result, fetch_spec, glyph_spec, Chip8, Fault, LoadError,
    MachineView, DISPLAY_HEIGHT, DISPLAY_SIZE, DISPLAY_WIDTH, FLAG, MEMORY_SIZE, NO_KEY,
    PROGRAM_START,
};
