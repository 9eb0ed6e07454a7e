//! An upload-and-thumbnail pipeline: an ingress stage that stores uploaded
//! images and announces them as jobs, and a worker stage that consumes one job,
//! shrinks the referenced image and stores the result under a derived name.
//!
//! The decisions of both stages are verified state machines. The network work
//! (object store, queue, HTTP) is performed by the caller, which feeds each
//! outcome back as an event.
pub mod ingress;
pub mod job;
pub mod thumbnail;
pub mod worker;
