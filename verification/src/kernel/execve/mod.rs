pub mod binfmt;
pub mod elf;
pub mod load_info;
pub mod params;
pub mod enter;
pub mod exit;
pub mod loader;
