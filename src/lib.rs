pub mod data_error;
pub mod drain;
pub mod error_mapper;
pub mod filter;
pub mod query;
pub mod unexpected_error;
