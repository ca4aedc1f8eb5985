//! The core of a server that offers the files under one directory over HTTP:
//! which file a request stands for, and which response the outcome of reading
//! that file calls for. Listening, routing and the reading itself are the
//! caller's business.

pub mod path;
pub mod status;
pub mod response;
pub mod handler;
pub mod laws;

pub use handler::StaticFileHandler;

