//! Resolves a name typed on the command line to one entry of the file
//! system and plans how that entry is handed to a browser.

pub mod browser;
pub mod cli;
pub mod errors;
pub mod file_search;
pub mod host;
pub mod resolver;
pub mod session;
pub mod text;
pub mod utils;
