//! Accounting and matching core of a decentralized exchange primitive over a
//! single native value unit: a linear bonding-curve automated market maker, an
//! escrow-only limit order book, a generic escrow vault, and a linear vesting
//! scheduler. All quantities are 512-bit unsigned fixed-point amounts in motes.

pub mod account;
pub mod amm;
pub mod amount;
pub mod launchpad;
pub mod ledger;
pub mod orderbook;
pub mod vault;

pub use account::AccountId;
pub use amm::AmmError;
pub use amm::CurveState;
pub use amount::Amount;
pub use amount::SCALE;
pub use launchpad::LaunchpadError;
pub use launchpad::LaunchpadState;
pub use launchpad::Project;
pub use launchpad::ProjectStatus;
pub use launchpad::VestingRecord;
pub use orderbook::Order;
pub use orderbook::OrderBookError;
pub use orderbook::OrderBookState;
pub use orderbook::OrderSide;
pub use orderbook::OrderStatus;
pub use vault::VaultError;
pub use vault::VaultState;
