//! A relay that lets a user on a remote chain run a lending position on the
//! host chain through attested instructions.

pub mod anchor;
pub mod asset;
pub mod byte_utils;
pub mod common;
pub mod cw20;
pub mod error;
pub mod gateway;
pub mod message;
pub mod proxy;
pub mod router;
pub mod store;
pub mod wormhole;
