pub mod auth;
pub mod config;
pub mod convert;
pub mod proxy;
pub mod resources;
pub mod routes;
pub mod version;
