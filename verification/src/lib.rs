//! Visibility filtering for mixer channels and devices.
//!
//! A [`filter::FilterConfig`] holds a whitelist, a blacklist and a switch
//! between substring and regular-expression matching; [`filter::should_show_with_fields`]
//! decides from it whether an item with the given text fields is shown.

pub mod text;
pub mod regex_backend;
pub mod pattern;
pub mod filter;
pub mod outputs;
pub mod laws;
