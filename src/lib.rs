//! A compiler-output cache server: the request dispatcher, the compile
//! pipeline's decisions and statistics, the compiler-info cache, an
//! in-memory content-addressed store, the lifecycle supervisor, the
//! length-delimited wire protocol and S3 request signing.

use vstd::prelude::*;

pub mod codec;
pub mod compilers;
pub mod framing;
pub mod lifecycle;
pub mod pipeline;
pub mod protocol;
pub mod s3;
pub mod server;
pub mod service;
pub mod stats;
pub mod storage;

verus! {

/// A message sent from the request handlers to the lifecycle supervisor.
#[derive(Clone, Copy, PartialEq, Eq, Structural, Debug)]
pub enum ServerMessage {
    /// Sent whenever a request is received.
    Request,
    /// Sent whenever a shutdown request is received.
    Shutdown,
}

} // verus!
