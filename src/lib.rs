pub mod cache;
pub mod compiler;
pub mod path;
pub mod pipeline;
pub mod resolver;

pub use pipeline::OutputPath;
