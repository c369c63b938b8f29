pub mod auction;
pub mod consumer;
pub mod whitelist;

pub use auction::{Auction, InitAuctionParams, TokenDetails};
pub use consumer::Consumer;
pub use whitelist::Whitelist;
