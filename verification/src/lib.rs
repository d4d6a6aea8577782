//! Gateway core for a 433MHz radio receiver: frame codecs, typed sensor values,
//! change debouncing and the command/event dispatch over the sensor aggregate.

pub mod clock;
pub mod db;
pub mod db_job;
pub mod domain;
pub mod errors;
pub mod lacrosse_v3_protocol;
pub mod listener;
pub mod models;
pub mod sql_util;
pub mod state_actor;
pub mod store;
pub mod text;
