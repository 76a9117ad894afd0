//! A chunked, concurrent multipart-upload writer core.
//!
//! The writer turns a sequence of arbitrary-sized write calls into a
//! correctly-ordered multipart upload against a remote object-storage
//! backend, and can finalize or cancel that upload on demand. Remote calls
//! are asynchronous and are performed by the caller between steps; the
//! decision logic here is synchronous and fully verified:
//!
//! - parts are numbered strictly in submission order, starting from 0;
//! - up to a fixed bound of part uploads are in flight at once;
//! - results are folded back in submission order, never completion order;
//! - a failed part is retried under its original number and position;
//! - a single write followed by close uses the oneshot path and never
//!   opens a multipart session.

pub mod laws;
pub mod part;
pub mod queue;
pub mod writer;
