//! Supervision of long-running external operations: child processes whose
//! output is streamed to a listener, and chunked network transfers written
//! through a temporary sibling file. The decisions of both (what to emit, when
//! to pause, when to kill, what to delete, what to rename) are made here; the
//! host performs them and reports back what happened.

pub mod cancel;
pub mod channel;
pub mod paths;
pub mod process;
pub mod progress;
pub mod rate;
pub mod records;
pub mod text;
pub mod transfer;
pub mod utils;
