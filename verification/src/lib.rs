//! A single-author blog: posts are composed in a form, stored as rows of one
//! table and shown newest first.
//!
//! The library holds the decisions of that flow as verified code. Whatever
//! touches the database file or the screen stays with the program that links
//! this crate: it carries out the actions the library asks for and hands the
//! outcomes back as plain values.

pub mod post;
pub mod presentation;
pub mod row;
pub mod service;
pub mod storage;
pub mod table;
pub mod view_state;
