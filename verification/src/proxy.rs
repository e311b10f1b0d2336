//! The proxy: the holder of one remote user's position in the money market.

pub mod contract;
pub mod model;
pub mod msg;
pub mod state;
pub mod theorems;
