//! An in-memory schema builder that renders a relational table definition
//! into a `CREATE TABLE` statement for a PostgreSQL-family database.
//!
//! A caller describes a table's columns (name, semantic type, per-column
//! constraints), adds them to a [`schema::Schema`], and renders the whole
//! table as one SQL string. Three system-managed columns (`id`,
//! `inserted_at`, `updated_at`) are part of every table and their names are
//! reserved.

pub mod field;
pub mod schema;
