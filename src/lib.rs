//! Status aggregation for cloud-connected smart-home devices: classification
//! of device status payloads, rendering into status-bar text, door transition
//! tracking, a shared status table and the merged snapshot it publishes.

pub mod aggregator;
pub mod api;
pub mod decimal;
pub mod device;
pub mod json;
pub mod keyed;
pub mod notify;
pub mod publish;
pub mod render;
pub mod table;
pub mod text;
