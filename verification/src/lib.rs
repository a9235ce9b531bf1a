pub mod bot;
pub mod clock;
pub mod config;
pub mod db;
pub mod dispatch;
pub mod download;
pub mod messages;
pub mod pattern;
pub mod poller;
pub mod reddit;
pub mod scheduler;
pub mod seen_posts_cache;
pub mod text;
pub mod types;
pub mod ytdlp;
