//! A terminal feed reader's core: feed normalization, cursor-bearing lists,
//! the navigation state machine and the reader's scroll arithmetic.

pub mod config;
pub mod feed;
pub mod list;
pub mod normalize;
pub mod render;
pub mod scroll;
pub mod session;
pub mod sources;
