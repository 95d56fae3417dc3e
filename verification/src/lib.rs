//! A resilient client core for a mirrored music-metadata REST API.
//!
//! The crate holds the verified logic of the client: a decimal codec for
//! `minutes:seconds` duration strings, the result-item type, and the
//! `Fetcher` state machine that rotates across mirror servers, classifies
//! transport outcomes, caches the trending list, and stitches search
//! results into fixed-size caller pages. The HTTP transport itself lives
//! outside the library and hands plain values in and out.

pub mod client;
pub mod digits;
pub mod duration_codec;
pub mod music;
