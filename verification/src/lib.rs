//! Acquisition pipeline for the telemetry stream of a robotic-arm controller:
//! framing of the byte stream, decoding of the fixed-layout record, selection
//! of chart series, rate control and the run state of the collector.

pub mod clock;
pub mod wire;
pub mod robot_data;
pub mod parser;
pub mod structs;
pub mod robot_client;
pub mod app_state;
pub mod response;
pub mod user_data;
pub mod csv_exporter;
