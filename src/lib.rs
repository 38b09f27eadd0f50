pub mod compare;
pub mod config;
pub mod directories;
pub mod errors;
pub mod file_paths;
pub mod files;
pub mod image;
pub mod models;
pub mod text;
pub mod validation;
