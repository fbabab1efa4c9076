//! Escrow orders: a depositor locks tokens with a keeper, who releases them
//! in parts until the order is complete; after a deadline either party may
//! take back what is left.

use vstd::prelude::*;

pub mod address;
pub mod cancel;
pub mod deposit;
pub mod error;
pub mod execute;
pub mod laws;
pub mod state;
pub mod token;
pub mod update_status;
pub mod utils;

verus! {

/// The shortest timeout an order may have: five minutes.
pub const MIN_TIMEOUT: i64 = 300;

/// The longest timeout an order may have: one day.
pub const MAX_TIMEOUT: i64 = 86400;

} // verus!

pub use crate::cancel::{cancel_order, CancelOrder};
pub use crate::deposit::{deposit_tokens, DepositTokens};
pub use crate::error::BaggageError;
pub use crate::execute::{partially_execute_order, ExecuteOrder};
pub use crate::state::{DepositOrder, OrderStatus, Pubkey};
pub use crate::update_status::{update_order_status_to_ready, UpdateOrderStatus};
pub use crate::utils::is_order_timed_out;
