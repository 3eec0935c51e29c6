pub mod common;
pub mod rotation;
pub mod scale;
