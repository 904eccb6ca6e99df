//! A presentation-loop synchronizer for a double/triple-buffered render loop,
//! together with the small verified pieces of the guide site that hosts it:
//! a template/markdown render cache, key-input bookkeeping, and example
//! selection.

mod bytes;
pub mod content;
pub mod examples;
pub mod input;
pub mod models;
pub mod sync;
