//! Turns a media player's "now playing" title into a desktop presence status.
//!
//! A raw title is normalized into a catalog query, the catalog's answers are
//! read into a media record, and the record is projected onto the payload
//! that the presence service shows. A separate state machine decides how the
//! program keeps itself current.

pub mod catalog;
pub mod json;
pub mod presence;
pub mod scan;
pub mod settled;
pub mod text;
pub mod title;
pub mod update;
