//! The two programs' command lines.
pub mod args;
pub mod plan;
pub mod unpm;
pub mod unpx;

pub use args::MainArgs;
pub use unpm::Unpm;
pub use unpx::Unpx;
