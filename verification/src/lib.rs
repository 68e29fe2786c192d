//! Detection and replacement of emoji characters in source text.
pub mod cli;
pub mod config;
pub mod engine;
pub mod watch;

pub use engine::emoji::EmojiDetector;
pub use config::Config;
pub use engine::processor::FileProcessor;
pub use engine::replacer::ReplacementMode;
