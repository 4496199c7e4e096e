//! A CHIP-8 virtual machine whose instruction semantics are stated as
//! specifications and proved against the executable code.

pub mod chip8;
pub mod clock;
pub mod cpu;
pub mod error;
pub mod execute;
pub mod instruction;
pub mod laws;
pub mod machine;

pub use chip8::Chip8;
pub use cpu::Cpu;
pub use error::Chip8Error;
pub use instruction::Instruction;
pub use machine::{
    MachineState, CHIP8_FONT, DISPLAY_HEIGHT, DISPLAY_SIZE, DISPLAY_WIDTH, FONT_ADDRESS,
    MEMORY_SIZE, START_ADDRESS, TIMER_RATE,
};
