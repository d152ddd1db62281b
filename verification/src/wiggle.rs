pub mod input;
pub mod pingpong;
