pub mod command;
pub mod frontend;
pub mod laws;
pub mod runtime;
pub mod text;
