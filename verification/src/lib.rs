//! Verified core of a Telegram bot that stores air-sensor readings and answers
//! with the latest readings and with charts of their history.
//!
//! The library decides what the bot does with an update and builds every text
//! it sends; the program around it stores rows, draws charts and talks HTTP.

pub mod text;
pub mod tgapi;
pub mod utils;
pub mod storage;
pub mod chart;
pub mod handlers;
pub mod laws;
