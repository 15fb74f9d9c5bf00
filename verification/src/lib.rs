//! Controller mapping library: the data model of physical inputs and
//! virtual Xbox 360 outputs, binding detection, profile handling, the
//! controller engine's decisions and the release-update rules.
pub mod text;
pub mod model;
pub mod mapper;
pub mod engine;
pub mod updater;
pub mod config;
pub mod single_instance;
pub mod profile_io;
pub mod presentation;
pub mod laws;
pub mod dev_runner;
pub mod config_file;
pub mod startup;
