//! Content storage keyed by hierarchical paths, and the user store's answers.

pub mod database_manager;
pub mod disk;
pub mod exchange;
pub mod laws;
pub mod measure;
pub mod paths;
pub mod s3_storage_manager;
pub mod storage_manager;
