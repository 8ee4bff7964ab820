pub mod model;
pub mod dto;
pub mod repository;
pub mod routes;
