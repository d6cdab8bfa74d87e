//! A small file-transfer service core: a filename-keyed byte store together
//! with the upload, download and listing handlers that drive it, and the
//! mapping of every failure onto one of three error classes.
//!
//! The store keeps each filename's bytes; writing an existing filename
//! overwrites it. Handlers validate their inputs, consult the store, and
//! produce a status together with any body and header. All of that is
//! verified here; the process plumbing around it (routing, sockets, the
//! backing directory) lives outside the library.

pub mod handlers;
pub mod laws;
pub mod response;
pub mod store;
