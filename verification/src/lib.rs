//! Configuration, profile and control logic of the UN Motion capture stack.
pub mod text;
pub mod catalog;
pub mod float_bits;
pub mod runner_profile;
pub mod decimal;
pub mod api_config;
pub mod server_rules;
pub mod control;
pub mod profile_schema;
pub mod unique_name;
pub mod profile_ops;
pub mod post_process_settings;
pub mod runtime_choices;
pub mod runtime_config;
pub mod signal_rules;
pub mod supervisor;
pub mod capturer;
pub mod profile_fields;
pub mod profile_views;
pub mod file_image;
pub mod image_source;
pub mod native_frame;
pub mod capturer_fleet;
pub mod runtime_loop;
pub mod output_telemetry;
pub mod source_routing;
pub mod core_client;
pub mod laws;
