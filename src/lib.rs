//! Keeps the `date` and `updated` fields of a page's TOML front matter in
//! step with the page's version-control history.

pub mod cli;
pub mod date;
pub mod error;
pub mod file_data;
pub mod front_matter;
pub mod history;
pub mod reconcile;
pub mod stats;
pub mod toml;

pub use cli::Cli;
pub use file_data::FileData;
pub use stats::Stats;
