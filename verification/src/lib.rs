//! Agent orchestration, document building and access rules of a multi-user
//! document-processing backend, with their contracts.
pub mod agent;
pub mod controllers;
pub mod ids;
pub mod models;
pub mod text;
pub mod views;
