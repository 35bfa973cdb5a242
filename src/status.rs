//! The shared record of how supervision ended, written once and read by many.

use vstd::prelude::*;

verus! {

/// The terminal outcome of one supervision run.
#[derive(Debug)]
pub enum Outcome {
    /// The worker answers on `port`; `spawned` tells whether this run started it.
    Running { port: u16, spawned: bool },
    /// Supervision failed with this message.
    Failed(String),
}

/// Three-valued supervision status.
#[derive(Debug)]
pub enum SidecarStatus {
    /// Supervision has not finished yet.
    Pending,
    /// The worker is ready on this port.
    Ready(u16),
    /// Supervision failed with this message.
    Failed(String),
}

/// What the status query reports for a status.
pub open spec fn report_of(s: SidecarStatus) -> Result<u16, Seq<char>> {
    match s {
        SidecarStatus::Pending => Err("Sidecar not started yet"@),
        SidecarStatus::Ready(p) => Ok(p),
        SidecarStatus::Failed(m) => Err(m@),
    }
}

/// The view of a query result.
pub open spec fn result_view(r: Result<u16, String>) -> Result<u16, Seq<char>> {
    match r {
        Ok(p) => Ok(p),
        Err(e) => Err(e@),
    }
}

/// The status after publishing `o`: only a pending status takes it.
pub open spec fn after_publish(s: SidecarStatus, o: Outcome) -> SidecarStatus {
    match s {
        SidecarStatus::Pending => match o {
            Outcome::Running { port, .. } => SidecarStatus::Ready(port),
            Outcome::Failed(m) => SidecarStatus::Failed(m),
        },
        _ => s,
    }
}

impl SidecarStatus {
    /// The status before supervision finishes.
    pub fn new() -> (r: SidecarStatus)
        ensures
            r is Pending,
    {
        SidecarStatus::Pending
    }

    /// Whether supervision is still running.
    pub fn is_pending(&self) -> (r: bool)
        ensures
            r == (*self is Pending),
    {
        match self {
            SidecarStatus::Pending => true,
            _ => false,
        }
    }

    /// Records the terminal outcome. The first publication wins; a later one
    /// changes nothing and returns `false`.
    pub fn publish(&mut self, o: Outcome) -> (r: bool)
        ensures
            r == (*old(self) is Pending),
            *final(self) == after_publish(*old(self), o),
    {
        match self {
            SidecarStatus::Pending => {
                match o {
                    Outcome::Running { port, .. } => {
                        *self = SidecarStatus::Ready(port);
                    },
                    Outcome::Failed(m) => {
                        *self = SidecarStatus::Failed(m);
                    },
                }
                true
            },
            _ => false,
        }
    }

    /// The status query: the port once ready, otherwise the recorded error or
    /// a note that supervision has not finished.
    pub fn get_sidecar_status(&self) -> (r: Result<u16, String>)
        ensures
            result_view(r) == report_of(*self),
    {
        match self {
            SidecarStatus::Pending => Err(String::from_str("Sidecar not started yet")),
            SidecarStatus::Ready(p) => Ok(*p),
            SidecarStatus::Failed(m) => Err(m.clone()),
        }
    }
}

/// Once an outcome is published, the status and every report read from it
/// stay as they are, whatever is published afterwards.
pub proof fn published_status_is_stable(s: SidecarStatus, o: Outcome)
    requires
        !(s is Pending),
    ensures
        after_publish(s, o) == s,
        report_of(after_publish(s, o)) == report_of(s),
{
}

/// Publishing into a pending status always ends the pending phase, and the
/// report then carries the outcome's port or message.
pub proof fn publication_is_reported(o: Outcome)
    ensures
        !(after_publish(SidecarStatus::Pending, o) is Pending),
        report_of(after_publish(SidecarStatus::Pending, o)) == match o {
            Outcome::Running { port, .. } => Ok::<u16, Seq<char>>(port),
            Outcome::Failed(m) => Err(m@),
        },
{
}

} // verus!
