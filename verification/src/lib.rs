pub mod strings;
pub mod text;
pub mod numbers;
pub mod enums;
pub mod errors;
pub mod adaptors;
pub mod context;
pub mod resolve;
pub mod cli;
pub mod json;
pub mod package;
pub mod detect;
pub mod fs;
pub mod lists;
pub mod search;
pub mod order;
pub mod laws;
pub mod behaviour;
