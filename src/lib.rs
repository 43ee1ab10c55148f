//! Detects links in chat text and rewrites the ones that belong to known
//! platforms to embed-friendly front-end domains.
pub mod config;
pub mod error;
pub mod pattern;
pub mod replace;
pub mod status;
pub mod text;
pub mod web_url;

pub use config::{
    create_default_config, Config, DeleteReplyReaction, HttpConfig, LinkReplacerConfig, ReplacerConfig,
};
pub use error::{ReplaceConfigError, ReplaceError};
pub use replace::amazon::AmazonConfig;
pub use replace::processor::MessageProcessor;
pub use status::BotStatus;
