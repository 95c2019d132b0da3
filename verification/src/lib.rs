//! Telemetry client layer for consumer LTE/WCDMA modems: vendor response
//! parsing, traffic-rate derivation and the polling scheduler's decisions.

pub mod bandwidth_utils;
pub mod client;
pub mod huawei_parser;
pub mod json;
pub mod modem_utils;
pub mod netgear_parser;
pub mod network_utils;
pub mod plot;
pub mod scheduler;
pub mod telnet;
pub mod text;
pub mod utils;
pub mod xml;
