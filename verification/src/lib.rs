//! Background media-derivation pipeline.
//!
//! The library keeps a user's primary media collection untouched and produces
//! the derived artifacts needed for display: square thumbnail previews for
//! every catalog entry, and transcoded video proxies computed exactly once
//! and committed atomically. The decision logic — which items need work, what
//! the transcoding engine does in each situation, and what signals the
//! preview worker emits — lives here with verified contracts; the surrounding
//! process performs the file, subprocess and catalog I/O those decisions call
//! for.

pub mod digits;
pub mod media;
pub mod transcode;
pub mod worker;
