//! A small blog-post backend library: pagination, input validation,
//! bearer-token authorization, error mapping, page rendering, and a
//! verified model of the post table with its CRUD operations.

pub mod api;
pub mod auth;
pub mod error;
pub mod paginator;
pub mod routes;
pub mod store;
pub mod text;
pub mod view;
