//! Guest side of a host/guest message boundary.
//!
//! A host hands the guest a serialized message, the guest answers with bytes
//! and one 64-bit word that tells the host where the answer lies, how long it
//! is and whether it reports a failure. This crate holds what is decided on
//! the way: the layout of the word, the message document and the two
//! transformations.

pub mod b64;
pub mod codec;
pub mod entry;
pub mod fault;
pub mod json;
pub mod packed;
pub mod reply;
pub mod text;

pub use entry::fail;
pub use entry::process;
pub use entry::process_err;
pub use entry::transform;
pub use entry::transform_err;
