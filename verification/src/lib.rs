//! A lazy, exactly-once materializing adapter that turns a remote object
//! store's whole-object read into a synchronous, randomly addressable byte
//! source.
//!
//! The adapter fetches the object at most once per instance, caches the
//! outcome forever (present bytes or a permanent "absent" sentinel), and
//! serves cursor-style `read` / `seek` / whole-buffer access from the cache.

pub mod buffer;
pub mod materializer;
pub mod reader;
pub mod remote;
