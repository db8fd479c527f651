//! Verified decoding of the notes that a node reports to a client.
//!
//! A notes sync describes each note by a record: its metadata, the proof of its inclusion in a
//! block, and, for each attachment, either the content or only the commitment to it. From a record
//! the library reconstructs the metadata that the note commits to, and tells whether the
//! attachments are known or have to be fetched. It then pairs a note with the content that was
//! resolved for it, where the two are consistent.
//!
//! - [`proto`] holds the messages, [`errors`] what can be wrong with them.
//! - [`sync`], [`committed`], [`sync_block`] and [`fetched`] decode them, [`synced`] resolves them.
//! - [`word`], [`attachment`], [`metadata`] and [`location`] hold what notes are made of.
//! - [`laws`] states what holds of the library as a whole.
//! - [`protocol`] holds the calls into the protocol crate, which are trusted.

pub mod attachment;
pub mod committed;
pub mod errors;
pub mod fetched;
pub mod laws;
pub mod location;
pub mod metadata;
pub mod proto;
pub mod protocol;
pub mod results;
pub mod sync;
pub mod sync_block;
pub mod synced;
pub mod text;
pub mod word;
