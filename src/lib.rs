pub mod config;
pub mod count;
pub mod driver;
pub mod report;
pub mod text;
