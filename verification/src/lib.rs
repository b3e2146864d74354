//! Verified core of a small operator console.
//!
//! The heart of the library is the service health aggregator: given a fixed
//! registry of named services, an optional case-insensitive name filter, and
//! one probe outcome per service, it classifies each probed service as online
//! or offline and renders an ordered plain-text report with a summary line.
//! The surrounding binary performs the actual HTTP probes and terminal
//! styling; everything that decides or formats lives here, with contracts.

pub mod console;
pub mod health;
pub mod registry;
pub mod report;
pub mod text;

pub use console::banner_text;
pub use console::generate_mock_response;
pub use console::get_service_icon;
pub use console::header_box;
pub use console::is_valid_service;
pub use console::typewriter_delay_ms;
pub use health::check_all;
pub use health::default_probe_config;
pub use health::classify;
pub use health::summarize;
pub use health::HealthResult;
pub use health::Outcome;
pub use health::ProbeConfig;
pub use health::ProbeOutcome;
pub use registry::default_registry;
pub use registry::ServiceDescriptor;
pub use report::render_report;
pub use report::render_row;
pub use report::status_indicator;
pub use report::summary_line;
pub use text::str_contains_ci;
pub use text::str_eq_ci;
pub use text::u64_to_dec;
