pub mod dispatch;
pub mod hashing;
pub mod io;
pub mod laws;
pub mod ledger;
pub mod lifecycle;
pub mod nft;
pub mod primitives;
pub mod registry;
pub mod token_core;
pub mod token_id;

pub use crate::hashing::get_hash;
pub use crate::lifecycle::Contract;
pub use crate::nft::{Error, MyNFTCore, Nft};
pub use crate::token_core::TokenCore;
