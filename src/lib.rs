pub mod devices;
pub mod input;
pub mod runtime;
