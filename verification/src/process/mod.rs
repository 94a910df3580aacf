pub mod tracee;
pub mod proot;
