//! Core logic of a Telegram bot that "hangs" chat members up on a lamp post:
//! the texts it answers with, the recognition of its own inline messages,
//! and the decisions behind each command.

pub mod commands;
pub mod config;
pub mod db_controller;
pub mod inline_query;
pub mod markdown;
pub mod messages;
pub mod pattern;
pub mod template;
pub mod users;
pub mod utils;
