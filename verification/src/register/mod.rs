pub mod mem;
pub mod reader;
pub mod regs;
pub mod writer;
