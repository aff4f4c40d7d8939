pub mod duplication;
pub mod metrics;
pub mod monitor_info;
pub mod monitor_region_capturer;
pub mod rect_extensions;
pub mod shuffle;
