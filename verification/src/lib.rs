//! Turn the calling process into a detached background daemon with the
//! classic double-fork protocol, and report back to the original caller,
//! within a bounded wait, whether detachment actually succeeded.
//!
//! The protocol itself — which of the three cooperating process instances
//! does what, which exit code each failure maps to, and how the waiting
//! side decodes it — is pure logic and is verified here. The operating
//! system calls it drives (fork, setsid, chdir, umask, open, dup2, close,
//! waitpid, poll) are performed by an unverified driver that feeds their
//! results back into the verified state machine one event at a time.

pub mod codes;
pub mod config;
pub mod errors;
pub mod machine;

pub use codes::ExitCodes;
pub use config::DaemonizeOptions;
pub use config::DEFAULT_TIMEOUT_MS;
pub use errors::DaemonError;
pub use machine::{Action, Event, Fork, Identity, Phase, Step};
