pub mod execve;
pub mod exit;
pub mod syscall;
pub mod groups;
pub mod sysnum;
pub mod ptrace;
pub mod ptracer;
pub mod standard;
pub mod enter;
