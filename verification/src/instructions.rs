pub mod init_protocol;
pub mod launch_coin;
pub mod trade_coin;
pub mod withdraw_funds;

pub use init_protocol::{InitProtocol, InitProtocolBumps};
pub use launch_coin::{LaunchCoin, LaunchCoinBumps, LaunchTokens};
pub use trade_coin::TradeCoin;
pub use withdraw_funds::WithdrawFunds;
