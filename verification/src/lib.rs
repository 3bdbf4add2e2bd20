//! SuperTable: the data model, texts and decisions of a desktop database
//! client, verified with Verus.
pub mod assets;
pub mod data;
pub mod db;
pub mod grid;
pub mod i18n;
pub mod text;
pub mod ui;
