//! Domain core of a developer portfolio: skills, projects, their value
//! objects and the business rules that decide whether an entity is valid.

pub mod auth;
pub mod config;
pub mod errors;
pub mod indexed;
pub mod outside;
pub mod project;
pub mod responses;
pub mod service_errors;
pub mod skill;
pub mod text;
pub mod timestamps;
pub mod types;
pub mod validators;
pub mod values;
