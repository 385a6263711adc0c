//! A small grocery CRUD backend: an in-memory relational table of grocery
//! rows, a patch-based access controller over it, a token-to-identity
//! resolver, and the request handling core that maps domain errors to HTTP
//! status codes.

pub mod decimal;
pub mod model;
pub mod security;
pub mod web;
