pub mod chdir;
pub mod getcwd;
pub mod paths;
pub mod rename_at;
