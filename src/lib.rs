//! Bootstrap layer of a function runtime: environment configuration, a
//! threshold logger, the publisher of the Unix-domain socket and the
//! request middleware.
pub mod config;
pub mod error;
pub mod listener;
pub mod logger;
pub mod middleware;
