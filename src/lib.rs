//! Fetches a batch of named images from a wiki-style API: each name is
//! resolved to a download URL through a metadata query, the image bytes are
//! fetched, and each image is saved under its title. The library holds the
//! rules of every step and the batch's state machine; the network and the
//! disk are driven by the caller.

pub mod error;
pub mod json;
pub mod image;
pub mod uri;
pub mod pipeline;
