//! A small to-do list web application: its authentication rules, its
//! SQLite-backed store of to-do items and the HTML pages that show them.

pub mod err;
pub mod sqlite;
pub mod db;
pub mod auth;
pub mod html;
pub mod templates;
pub mod views;
