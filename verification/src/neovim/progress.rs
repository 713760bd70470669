//! Progress notifications shown to the user.
//!
//! A reporter sends a notification through one of two backends: Neovim's
//! echo area, or the `nvim-notify` plugin when it is installed. Building the
//! notification is decided here; sending it is left to the backend.

use vstd::prelude::*;

verus! {

/// A percentage value between `0` and `100`.
pub type Percentage = u8;

/// The kind of a progress notification.
#[derive(Clone, Copy, Debug, PartialEq, Eq, Structural)]
pub enum ProgressNotificationKind {
    /// Work is under way, optionally this far along.
    Progress(Option<Percentage>),
    /// The work succeeded.
    Success,
    /// The work failed.
    Error,
}

/// The level at which a notification is shown.
#[derive(Clone, Copy, Debug, PartialEq, Eq, Structural)]
pub enum Level {
    Info,
    Error,
}

impl Level {
    /// The level of a notification of the given kind: errors show as errors,
    /// everything else as information.
    pub fn from_kind(kind: ProgressNotificationKind) -> (level: Level)
        ensures
            level == if kind is Error {
                Level::Error
            } else {
                Level::Info
            },
    {
        match kind {
            ProgressNotificationKind::Progress(_) | ProgressNotificationKind::Success => Level::Info,
            ProgressNotificationKind::Error => Level::Error,
        }
    }
}

/// A progress notification: the message chunks to show, and its kind.
pub struct ProgressNotification<C> {
    pub chunks: C,
    pub kind: ProgressNotificationKind,
}

/// The backend that a reporter sends its notifications through.
pub enum ProgressReporter<E, N> {
    /// Neovim's echo area.
    NvimEcho(E),
    /// The `nvim-notify` plugin.
    NvimNotify(N),
}

impl<E, N> ProgressReporter<E, N> {
    /// The reporter for the backends available: `nvim-notify` when it is
    /// installed, the echo area otherwise.
    pub fn new(nvim_notify_is_installed: bool, echo: E, notify: N) -> (reporter: Self)
        ensures
            reporter == if nvim_notify_is_installed {
                ProgressReporter::<E, N>::NvimNotify(notify)
            } else {
                ProgressReporter::<E, N>::NvimEcho(echo)
            },
    {
        if nvim_notify_is_installed {
            ProgressReporter::NvimNotify(notify)
        } else {
            ProgressReporter::NvimEcho(echo)
        }
    }

    /// The final notification of a failure, with the reporter to send it
    /// through.
    pub fn report_error<C>(self, chunks: C) -> (sent: (Self, ProgressNotification<C>))
        ensures
            sent.0 == self,
            sent.1.chunks == chunks,
            sent.1.kind == ProgressNotificationKind::Error,
    {
        (self, ProgressNotification { chunks, kind: ProgressNotificationKind::Error })
    }

    /// A notification of progress, optionally with how far along the work
    /// is.
    pub fn report_progress<C>(&self, chunks: C, percentage: Option<Percentage>) -> (notif:
        ProgressNotification<C>)
        ensures
            notif.chunks == chunks,
            notif.kind == ProgressNotificationKind::Progress(percentage),
    {
        ProgressNotification { chunks, kind: ProgressNotificationKind::Progress(percentage) }
    }

    /// The final notification of a success, with the reporter to send it
    /// through.
    pub fn report_success<C>(self, chunks: C) -> (sent: (Self, ProgressNotification<C>))
        ensures
            sent.0 == self,
            sent.1.chunks == chunks,
            sent.1.kind == ProgressNotificationKind::Success,
    {
        (self, ProgressNotification { chunks, kind: ProgressNotificationKind::Success })
    }
}

} // verus!
