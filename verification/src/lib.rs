pub mod anchors;
pub mod config;
pub mod partition;
pub mod scheduler;
pub mod timeline;
