//! A typed client core for the Magic: The Gathering reference service.
//!
//! The crate assembles the request URL of each resource (cards, sets, formats,
//! types, subtypes, supertypes) and resolves what came back for it. It sends
//! nothing itself: the caller performs the GET, reports the status and the
//! decoded body, and gets back the typed result or the typed error.
//!
//! Three access patterns exist per resource: `all()` for the whole collection,
//! `find()` for one record by its identifier, and `filter()` for a collection
//! narrowed by filter pairs.
pub mod cards;
pub mod decimal;
pub mod formats;
pub mod query_builder;
pub mod sets;
pub mod status;
pub mod subtypes;
pub mod supertypes;
pub mod types;
