//! A small HTTP/1.1 service core for one resource, `User`: request framing,
//! routing and the decisions of the five CRUD handlers, free of any I/O.

pub mod connection;
pub mod framing;
pub mod laws;
pub mod number;
pub mod response;
pub mod routing;
pub mod store;
pub mod table;
pub mod text;
pub mod user;
