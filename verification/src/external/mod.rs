//! Clients for the services behind the platform.

pub mod postgrest_rs;
