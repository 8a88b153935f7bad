//! Renders an introspected relational schema as `table!` declaration text.
//!
//! The pipeline: [`filter`] picks the tables, [`vocab`] and [`custom_types`]
//! find and name the types a backend does not know, [`namespace`] declares
//! them, [`render`] writes the table, join and co-appearance declarations
//! through the indenting writer of [`pad`], and [`schema`] assembles the
//! whole text and applies an optional patch.

pub mod config;
pub mod custom_types;
pub mod docs;
pub mod filter;
pub mod model;
pub mod namespace;
pub mod order;
pub mod pad;
pub mod patch_check;
pub mod render;
pub mod schema;
pub mod text;
pub mod vocab;
