//! Verified core of the AI-Arena client GUI backend: the rules that decide
//! game outcomes, bookkeeping of bot hashes and results, bot launching and
//! download decisions, and the small text helpers they rest on.

pub mod text;
pub mod str_map;
pub mod games;
pub mod results;
pub mod hashes;
pub mod errors;
pub mod settings;
pub mod helpers;
pub mod api;
pub mod bot;
pub mod download;
pub mod paths;
pub mod todo;
pub mod gui;
