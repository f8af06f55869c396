pub mod config;
pub mod convert;
pub mod data;
pub mod response;
pub mod routes;
