//! Telemetry aggregation core: bounded downsampling history series,
//! windowed space-weather forecast aggregation, topic routing and
//! timestamp normalization.
pub mod datetime;
pub mod forecast;
pub mod history;
pub mod model;

use vstd::prelude::*;

verus! {

/// Read-only process-wide configuration, fixed at startup.
pub struct Config {
    pub mqtt_host: String,
    pub mqtt_port: u16,
    pub mqtt_keep_alive: u16,
    pub mqtt_base_topic: String,
    pub mqtt_controller_name: String,
    pub timezone_offset_h: i8,
    pub srs_min_prob_thrh: u8,
    pub rb_min_prob_thrh: u8,
    pub video_url: String,
    pub video_max_rate: u8,
    pub history_n_elements: usize,
    pub history_interval_s: u64,
}

} // verus!
