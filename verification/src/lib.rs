//! Verified core of a chat command that reports the price of a token pair
//! listed on the dexscreener service.

pub mod chain;
pub mod command;
pub mod text;
pub mod json;
pub mod request;
pub mod flow;
pub mod pair;
pub mod notice;
