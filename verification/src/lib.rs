//! A Telegram announcement bot's core: the users table and its rules, the
//! stored message format, and the replies the bot gives to its commands.

pub mod bot;
pub mod database;
pub mod error;
pub mod functions;
pub mod storage;
pub mod text;
