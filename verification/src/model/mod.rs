//! Records as the service stores them, and as spreadsheets and JSON files
//! deliver them.
pub mod database;
pub mod excel;
pub mod json;
