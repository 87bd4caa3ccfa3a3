//! A wrapper around byte-stream resources (readers, buffered readers and
//! writers) that absorbs transient interruptions: whenever a primitive
//! operation of the underlying resource fails with the interrupted kind, the
//! attempt is discarded and retried, and every other outcome is handed to the
//! caller unchanged.
//!
//! The three capabilities of a stream resource are modelled by the traits in
//! [`resource`]; the wrapper itself lives in [`retry`]; scripted in-memory
//! resources, whose attempt outcomes are driven by an explicit script, live in
//! [`scripted_reader`], [`scripted_buf`] and [`scripted_writer`]; the laws of
//! the retry discipline are stated and proved in [`laws`].

pub mod kind;
pub mod laws;
pub mod resource;
pub mod retry;
pub mod script;
pub mod scripted_buf;
pub mod scripted_reader;
pub mod scripted_writer;
