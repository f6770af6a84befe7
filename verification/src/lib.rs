//! A static-site generator's core: a scanner that turns a directory listing
//! into a tree of folders and content files, and a transformer that turns that
//! tree into the directories and HTML documents of the finished site.
//!
//! The library neither reads nor writes the file system. The scanner takes
//! what was found on disk as a [`file_system::Listing`]; the transformer hands
//! back a [`posts::Plan`] of outputs for the caller to write.

pub mod config;
pub mod document;
pub mod error;
pub mod file_system;
pub mod markdown;
pub mod paths;
pub mod plan_laws;
pub mod posts;
pub mod scan_laws;

pub use config::Config;
pub use error::{ErrorKind, SiteError};
pub use file_system::{get_posts, Contents, Entry, Listing, Node, SiteData};
pub use posts::{process_site_data, Output, Plan};
