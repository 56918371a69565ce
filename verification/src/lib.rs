//! Safe, verified core of a document-handle layer over a native
//! document-processing engine.
//!
//! The native engine exposes opaque handles and fallible calls; everything
//! that can be decided without touching a raw handle lives here: the typed
//! error channel, the metadata key table, the page-range clamping policy of
//! fixed-layout conversion, the finalize-once lifecycle of an owned native
//! resource, and the stepping logic of the page iterator.

pub mod document;
pub mod error;
pub mod metadata;
pub mod page_iter;
