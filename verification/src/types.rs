//! Portal request and reply types, as the bus layer hands them over.

pub mod file_chooser;
