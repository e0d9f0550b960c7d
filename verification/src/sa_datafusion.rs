//! Registering and reading single files with format options.

pub mod sa_file_format;
pub mod sa_file_options;
