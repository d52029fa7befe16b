//! A cycle-stepped core of the LR35902 (Game Boy) CPU: register file, opcode
//! decoder and a micro-operation scheduler driven one clock tick at a time.

mod bits;
pub mod cpu;
pub mod data_bus;
pub mod instruction;
pub mod mbc;
pub mod op_actions;
pub mod reg16;
pub mod reg8;
pub mod reg_flags;
