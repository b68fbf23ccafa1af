//! A CHIP-8 virtual machine: the instruction interpreter, the display with
//! its XOR sprite drawing, timers and keypad, each with a contract over a
//! mathematical model of the machine.
//!
//! The host creates a [`system::System`], loads a program, and then calls
//! `step` at the processor's rate, `tick_timers` at 60 Hz, and
//! `handle_key_event` whenever a key goes down or up. It presents what
//! `display` shows.
pub mod display;
pub mod font;
pub mod frame;
pub mod instruction;
pub mod machine;
pub mod machine_laws;
pub mod random;
pub mod sprite_laws;
pub mod system;
