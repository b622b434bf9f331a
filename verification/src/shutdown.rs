use vstd::prelude::*;

verus! {

/// Where the application stands in its shutdown sequence. Closing is
/// requested once, and the process may only exit after pending edits were
/// flushed and no background job is running any more.
#[derive(Debug, Clone, Copy, PartialEq, Eq, Structural)]
pub enum ShutdownPhase {
    /// No shutdown is underway.
    NotRequested,
    /// The user asked to close while work was pending: the close was
    /// cancelled, the pending edits were flushed, and the application
    /// waits for the running jobs to finish.
    Requested,
    /// Nothing is pending and nothing runs: the process may exit.
    SafeToClose,
}

/// What one shutdown decision asks the shell to do.
#[derive(Debug, Clone, Copy, PartialEq, Eq, Structural)]
pub struct ShutdownStep {
    pub phase: ShutdownPhase,
    /// Cancel the close the windowing system is about to perform.
    pub cancel_close: bool,
    /// Apply the pending edits before closing.
    pub flush_pending_edits: bool,
    /// Ask the windowing system to close now.
    pub close_now: bool,
}

/// One decision of the shutdown sequence, taken once per tick.
///
/// A close request with pending edits is cancelled: the edits are flushed
/// first and the sequence moves to [`ShutdownPhase::Requested`], where it
/// stays — never asking to close — until no job runs any more. Only then,
/// or when a close arrives with nothing pending, does the sequence reach
/// [`ShutdownPhase::SafeToClose`]; that phase is final.
pub fn shutdown_step(
    phase: &ShutdownPhase,
    close_requested: bool,
    has_pending_updates: bool,
    jobs_running: bool,
) -> (r: ShutdownStep)
    ensures
        *phase is NotRequested && close_requested && has_pending_updates ==> r == (ShutdownStep {
            phase: ShutdownPhase::Requested,
            cancel_close: true,
            flush_pending_edits: true,
            close_now: false,
        }),
        *phase is NotRequested && close_requested && !has_pending_updates ==> r == (ShutdownStep {
            phase: ShutdownPhase::SafeToClose,
            cancel_close: false,
            flush_pending_edits: false,
            close_now: false,
        }),
        *phase is NotRequested && !close_requested ==> r == (ShutdownStep {
            phase: ShutdownPhase::NotRequested,
            cancel_close: false,
            flush_pending_edits: false,
            close_now: false,
        }),
        *phase is Requested && jobs_running ==> r == (ShutdownStep {
            phase: ShutdownPhase::Requested,
            cancel_close: false,
            flush_pending_edits: false,
            close_now: false,
        }),
        *phase is Requested && !jobs_running ==> r == (ShutdownStep {
            phase: ShutdownPhase::SafeToClose,
            cancel_close: false,
            flush_pending_edits: false,
            close_now: true,
        }),
        *phase is SafeToClose ==> r == (ShutdownStep {
            phase: ShutdownPhase::SafeToClose,
            cancel_close: false,
            flush_pending_edits: false,
            close_now: false,
        }),
        // the exit is blocked while jobs run, and a pending edit is
        // always flushed before any close
        r.close_now ==> !jobs_running,
        r.flush_pending_edits ==> r.cancel_close,
{
    match phase {
        ShutdownPhase::NotRequested => {
            if close_requested {
                if has_pending_updates {
                    ShutdownStep {
                        phase: ShutdownPhase::Requested,
                        cancel_close: true,
                        flush_pending_edits: true,
                        close_now: false,
                    }
                } else {
                    ShutdownStep {
                        phase: ShutdownPhase::SafeToClose,
                        cancel_close: false,
                        flush_pending_edits: false,
                        close_now: false,
                    }
                }
            } else {
                ShutdownStep {
                    phase: ShutdownPhase::NotRequested,
                    cancel_close: false,
                    flush_pending_edits: false,
                    close_now: false,
                }
            }
        },
        ShutdownPhase::Requested => {
            if jobs_running {
                ShutdownStep {
                    phase: ShutdownPhase::Requested,
                    cancel_close: false,
                    flush_pending_edits: false,
                    close_now: false,
                }
            } else {
                ShutdownStep {
                    phase: ShutdownPhase::SafeToClose,
                    cancel_close: false,
                    flush_pending_edits: false,
                    close_now: true,
                }
            }
        },
        ShutdownPhase::SafeToClose => ShutdownStep {
            phase: ShutdownPhase::SafeToClose,
            cancel_close: false,
            flush_pending_edits: false,
            close_now: false,
        },
    }
}

} // verus!
