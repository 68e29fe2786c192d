//! Emoji detection, replacement strategies, text positions, and the file handling parts.
pub mod backup;
pub mod emoji;
pub mod error;
pub mod processor;
pub mod replacer;
pub mod text;
pub mod walker;

pub use self::backup::BackupManager;
pub use self::emoji::EmojiDetector;
pub use self::processor::FileProcessor;
pub use self::replacer::{EmojiReplacer, ReplacementMode};
pub use self::walker::DirectoryWalker;
