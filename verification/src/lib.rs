//! Verified core of an ERP web API: letters of guarantee ("warrants"), companies,
//! JWT-based authentication, server-side sessions and secret lookup.
//!
//! The library holds the decisions and the text that the service computes: which SQL
//! it sends with which parameters, how it names uploaded files, who may write, what a
//! session lookup leads to. Network, database and file access stand outside it.
pub mod text;
pub mod error;
pub mod sql;
pub mod warrant_type;
pub mod warrant;
pub mod auth;
pub mod middleware;
pub mod service;
pub mod entity;
pub mod repository;
pub mod vault;
