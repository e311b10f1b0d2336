//! The router: it provisions one proxy per remote user and forwards operations to it.

pub mod borrows;
pub mod contract;
pub mod deposits;
pub mod gov;
pub mod helpers;
pub mod model;
pub mod msg;
pub mod state;
pub mod theorems;
