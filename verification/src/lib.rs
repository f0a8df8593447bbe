//! IEC 60870-5-104 link-layer session engine: APDU/ASDU codecs, the
//! information-object value codec, and the sliding-window protocol state
//! machine, with machine-checked contracts.

pub mod cot;
pub mod types;
pub mod types_id;
pub mod asdu;
pub mod apdu;
pub mod error;
pub mod client;
pub mod config;
pub mod link;

use vstd::prelude::*;

verus! {

} // verus!
