//! The decision layer of the StudyCycle HTTP API.
//!
//! Every endpoint of the API reads some rows, runs a few permission and
//! validation guards, decides, and then writes.  This crate holds the
//! deciding part: for each endpoint a function from the plain values that
//! were read (and the outcome of each guard) to the error that the endpoint
//! answers with, or to the exact set of changes it makes.

pub mod outside;

pub mod error;
pub mod modlog;
pub mod field;
pub mod time;
pub mod comment;
pub mod community;
pub mod federation;
pub mod local_user;
pub mod post;
pub mod reports;
pub mod site;
pub mod crud;
pub mod laws;
