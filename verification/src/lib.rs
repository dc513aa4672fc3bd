//! The MarketMaker node: its human-readable log, its message-signing requests
//! and the bookkeeping of its Lightning side.

pub mod json;
pub mod keyed_map;
pub mod ln_events;
pub mod ln_utils;
pub mod log;
pub mod platform;
pub mod signature;
pub mod storage;
pub mod text;
