//! A verified RV32I instruction-set emulator core.
//!
//! The processor ([`cpu::Cpu`]) fetches, decodes and executes instructions
//! against a register file and a flat little-endian memory until the
//! program ends. Every function carries a contract over a mathematical
//! model of the machine ([`semantics::Machine`]):
//!
//! - [`encoding`] says which instruction a word stands for,
//! - [`semantics`] says what each instruction does to the machine,
//! - [`outcome`] says how a cycle and a run proceed and end,
//! - [`laws`] proves what holds of every instruction and every state.
//!
//! Around the core stand the loader ([`image`], [`elf`]), the options of a
//! run ([`config`]), and what a tracing front end shows ([`mnemonic`],
//! [`dump`], [`command`]).

pub mod bits;
pub mod command;
pub mod config;
pub mod cpu;
pub mod dump;
pub mod elf;
pub mod encoding;
pub mod executor;
pub mod image;
pub mod instruction;
pub mod laws;
pub mod mnemonic;
pub mod number;
pub mod outcome;
pub mod semantics;
