//! Client-side model of a geo-data server's metadata documents.
//!
//! The server publishes the same logical information in two wire encodings
//! (an attribute-centric tree and a field-centric flat format) and has
//! changed its document shape across protocol epochs.  An unverified bridge
//! turns raw document bytes into one semi-structured value tree; everything
//! from that tree to the typed document model is decoded here, with
//! contracts that pin down exactly which shapes are accepted and what each
//! one decodes to.

pub mod scalar;
pub mod value;
pub mod error;
pub mod elements;
pub mod decode;
pub mod apis;
pub mod document;
