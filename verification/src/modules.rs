//! Path handling and the file-registering client.

pub mod datafusion;
pub mod fs;
pub mod utils;
