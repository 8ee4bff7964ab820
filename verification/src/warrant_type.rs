pub mod model;
pub mod routes;
