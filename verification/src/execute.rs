//! The operations that change the state.

pub mod buy_sell;
pub mod on_balance_change;
pub mod cw20_receive;
pub mod set_config;
