//! Transformers that rewrite links of known platforms, and the processor
//! that applies them to whole messages.
pub mod base;
pub mod bsky;
pub mod instagram;
pub mod pixiv;
pub mod reddit;
pub mod tiktok;
pub mod twitter;
pub mod youtube;
pub mod amazon;
pub mod reddit_media;
pub mod replacer;
pub mod registry;
pub mod processor;
