pub mod alu;
pub mod bus;
pub mod cartridge;
pub mod cpu;
pub mod error;
pub mod machine;
pub mod mapper;
pub mod nes;
pub mod memory;
pub mod nrom;
pub mod opcodes;
pub mod ppu;
pub mod rom;
pub mod trace;
