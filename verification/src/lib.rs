//! Verified core of a ptrace-based `chroot`/`mount --bind` emulator: the
//! decisions taken at every stop of a traced process, the register cache,
//! the ELF and shebang parsers used by `execve`, and the syscall tables.

pub mod bytes;
pub mod errors;
pub mod kernel;
pub mod process;
pub mod register;
pub mod sigactions;
