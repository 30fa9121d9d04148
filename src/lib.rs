pub mod digits;
pub mod laws;
pub mod paths;
pub mod sink;
mod text;

pub use sink::{Args, Attempt, Candidate, File};
