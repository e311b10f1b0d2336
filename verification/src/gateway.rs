//! The relay gateway: it takes attested instructions in and relays assets out.

pub mod contract;
pub mod instruction;
pub mod model;
pub mod msg;
pub mod state;
pub mod theorems;
pub mod util;
