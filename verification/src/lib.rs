//! A to-do list: the task record, the in-memory list that mirrors the
//! durable table, the table itself, and the menu that drives both.

pub mod database;
pub mod menu;
pub mod text;
pub mod todo;
