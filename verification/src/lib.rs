//! Verified decision logic of the position-creator smart contracts: the
//! payments and cross-contract calls that turn a single token into a
//! liquidity (or farm) position, and the checks made at deployment.
pub mod auto_farm_config;
pub mod big_uint;
pub mod auto_pos_creator;
pub mod calls;
pub mod create_farm_pos;
pub mod create_pair_pos;
pub mod errors;
pub mod laws;
pub mod locked_token_pos_creator;
pub mod moax_wrapper_actions;
pub mod pair_actions;
pub mod pos_flow;
pub mod proxy_dex_actions;
pub mod token_id;
pub mod types;
pub mod utils;
