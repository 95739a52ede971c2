//! Settlement-file processing: decides which object keys of a store are
//! settlement files, derives their backup names and tags, and prepares the
//! copy requests that duplicate them.

pub mod patterns;
pub mod types;
pub mod handler;
pub mod listing;
