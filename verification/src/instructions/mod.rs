pub mod add_whitelist;
pub mod deposit_to_vault;
pub mod init_auction;
pub mod remove_whitelist;
pub mod whitelist_buy;
pub mod withdraw_from_vault;

pub use init_auction::InitAuctionArgs;
pub use withdraw_from_vault::Withdrawal;
