pub mod file_details;
pub mod list_files;
