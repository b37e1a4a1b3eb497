//! A minimal on-chain record store: short text posts ("tweets"), each tied to
//! an author's public identity and a creation timestamp.
//!
//! The library holds the whole functional core: the fixed-layout [`tweet::Tweet`]
//! record, the single validated store operation [`tweet::send_tweet`], and the
//! byte-exact codec for the persisted layout in [`codec`]. Signature checks,
//! storage funding and the clock belong to the surrounding execution
//! environment, which hands this core already-verified plain values.

pub mod codec;
pub mod tweet;

pub use tweet::ErrorCode;
pub use tweet::SendTweet;
pub use tweet::Slot;
pub use tweet::Tweet;
pub use tweet::send_tweet;
