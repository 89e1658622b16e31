//! A minimal text-only web page viewer: navigation history with fenced
//! asynchronous loads, and markup-to-text extraction over an arena tree.

pub mod text;
pub mod config;
pub mod browser;
pub mod document;
pub mod html;
pub mod fetch;
pub mod package_manager;
pub mod listing;
pub mod file_manager;
