//! A compile-time uniformity checker for record-type declarations.
//!
//! The checker inspects the named fields of a struct declaration and rejects
//! the declaration unless every field's declared type, compared by its
//! rendered textual form, matches the type of the first declared field.
//! On success the declaration passes through unchanged; on the first
//! mismatch a single compile-time diagnostic is produced instead.
//!
//! The comparison is deliberately textual, not semantic: two spellings that
//! denote the same concrete type (an alias and its underlying name, for
//! instance) count as different.

pub mod record;
pub mod check;
pub mod message;
pub mod frontend;
