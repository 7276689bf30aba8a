//! A small client binding for the AnkiConnect automation interface: it builds
//! the JSON requests that ensure the note deck exists and add a cloze note to
//! it, and decides what each reply means.

pub mod json;
pub mod request;
pub mod client;
