use vstd::prelude::*;

pub mod chain;
pub mod chainstate;
pub mod codec;
pub mod config;
pub mod console;
pub mod dns;
pub mod error;
pub mod mempool;
pub mod merkle;
pub mod message;
pub mod options;
pub mod peer;
pub mod qrcode;
pub mod sync;
pub mod tokens;
pub mod types;

verus! {

} // verus!
