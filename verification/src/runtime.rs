pub mod environment;
pub mod expressions;
pub mod floats;
pub mod helpers;
pub mod interpreter;
pub mod statements;
pub mod values;
