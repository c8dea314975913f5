//! Terminal ownership for an interactive shell: which process group owns the
//! controlling terminal, how it is handed to a foreground job, and how the shell
//! takes it back.
//!
//! The kernel calls themselves (querying and assigning the terminal's process
//! group, probing a group, saving terminal modes) are made by the caller. This
//! library decides, from what each call reported, what to do next.

pub mod fg;
pub mod job_group;
pub mod transfer;
pub mod handle;

pub use fg::{
    fg_status, select_job, FgError, FgTarget, JobStatus, STATUS_CMD_ERROR, STATUS_CMD_OK,
    STATUS_INVALID_ARGS,
};
pub use job_group::JobGroup;
pub use handle::{Binding, TtyTransfer};
pub use transfer::{Outcome, Phase, Reply, Request, Step, TransferAttempt, TtyError};
