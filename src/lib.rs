//! Configuration cascade and sample-file bookkeeping for a competitive
//! programming workflow tool.

pub mod add;
pub mod conf;
pub mod download;
