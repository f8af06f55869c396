pub mod data;
pub mod diagnostic;
pub mod entities;
pub mod repository;
