pub mod ptrace;
pub mod wait;
