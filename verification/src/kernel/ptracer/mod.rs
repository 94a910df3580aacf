pub mod wait;
