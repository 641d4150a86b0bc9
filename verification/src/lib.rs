pub mod clock;
pub mod domain;
pub mod email;
pub mod models;
pub mod routes;
pub mod store;
pub mod token;
