//! The status line: which message is shown and for how long.
//!
//! A message that is to go away starts a timer. The bar keeps the ticket
//! of the timer that counts; a timer that comes back with another ticket
//! has been overtaken by a later message and clears nothing.

use vstd::prelude::*;

use crate::action::Action;

verus! {

/// How a status message is to be read.
#[derive(Debug, Clone, Copy, PartialEq, Eq, Structural)]
pub enum StatusLevel {
    Info,
    Progress,
    Success,
    Error,
}

/// How long a status message stays.
#[derive(Debug, Clone, Copy, PartialEq, Eq, Structural)]
pub enum StatusDuration {
    /// Is not rendered to screen (ex: when clearing status)
    Hidden,
    Short,
    Long,
    Seconds(u64),
    /// Stays on screen till next status update
    Sticky,
    /// Stays on screen till next status update. Unless next status update
    /// is also "Annoying", this status will appear after next status
    /// duration elapses.
    Annoying,
}

impl StatusDuration {
    /// The seconds after which a message of this duration is cleared, or
    /// `None` where it stays.
    pub open spec fn spec_seconds(self) -> Option<u64> {
        match self {
            StatusDuration::Hidden => Some(0u64),
            StatusDuration::Short => Some(3u64),
            StatusDuration::Long => Some(10u64),
            StatusDuration::Seconds(s) => Some(s),
            StatusDuration::Sticky => None,
            StatusDuration::Annoying => None,
        }
    }

    /// The seconds after which a message of this duration is cleared, or
    /// `None` where it stays.
    pub fn seconds(&self) -> (r: Option<u64>)
        ensures
            r == self.spec_seconds(),
    {
        match self {
            StatusDuration::Hidden => Some(0),
            StatusDuration::Short => Some(3),
            StatusDuration::Long => Some(10),
            StatusDuration::Seconds(s) => Some(*s),
            _ => None,
        }
    }
}

/// A request to change the status line.
#[derive(Debug, Clone, PartialEq, Eq)]
pub enum StatusAction {
    UpdateStatus(StatusLevel, String),
    UpdateStatusWithDuration(StatusLevel, StatusDuration, String),
}

/// A message on the status line.
#[derive(Debug, PartialEq, Eq)]
pub struct StatusMessage {
    pub level: StatusLevel,
    pub message: String,
}

impl Clone for StatusMessage {
    fn clone(&self) -> (r: StatusMessage)
        ensures
            r == *self,
    {
        StatusMessage { level: self.level, message: self.message.clone() }
    }
}

/// A timer to start: when `seconds` have passed, the bar is told that the
/// timer with this ticket has run out.
#[derive(Debug, Clone, Copy, PartialEq, Eq, Structural)]
pub struct ClearTimer {
    pub ticket: u64,
    pub seconds: u64,
}

/// The status line.
#[derive(Debug, PartialEq, Eq)]
pub struct StatusBar {
    pub status: Option<StatusMessage>,
    pub last_annoying: Option<StatusMessage>,
    pub next_ticket: u64,
    pub live_timer: Option<u64>,
}

impl StatusBar {
    /// The live timer is one that has been started.
    pub open spec fn wf(&self) -> bool {
        self.live_timer.is_some() ==> self.live_timer.unwrap() < self.next_ticket
    }

    /// Whether another timer can be started.
    pub open spec fn can_issue(&self) -> bool {
        self.next_ticket < u64::MAX
    }

    /// An empty status line.
    pub fn new() -> (r: StatusBar)
        ensures
            r.wf(),
            r.can_issue(),
            r.status.is_none(),
            r.last_annoying.is_none(),
            r.live_timer.is_none(),
            r.next_ticket == 0,
    {
        StatusBar { status: None, last_annoying: None, next_ticket: 0, live_timer: None }
    }

    /// Whether the live timer is one that has been started.
    pub fn is_wf(&self) -> (r: bool)
        ensures
            r == self.wf(),
    {
        match self.live_timer {
            Some(t) => t < self.next_ticket,
            None => true,
        }
    }

    /// Whether another timer can be started.
    pub fn can_start(&self) -> (r: bool)
        ensures
            r == self.can_issue(),
    {
        self.next_ticket < u64::MAX
    }

    /// The bar after a status has been set, and the timer to start.
    ///
    /// An annoying status is only remembered. An empty status brings the
    /// remembered annoying status back, where there is one. Any other
    /// status is shown, stops the timer that was running, and starts a
    /// timer of its own where its duration ends.
    pub open spec fn spec_set_status(
        self,
        status: String,
        level: StatusLevel,
        duration: StatusDuration,
    ) -> (StatusBar, Option<ClearTimer>) {
        if duration == StatusDuration::Annoying {
            (
                StatusBar {
                    last_annoying: Some(StatusMessage { level, message: status }),
                    ..self
                },
                None,
            )
        } else if status@.len() == 0 && self.last_annoying.is_some() {
            (StatusBar { status: self.last_annoying, ..self }, None)
        } else {
            match duration.spec_seconds() {
                Some(seconds) => (
                    StatusBar {
                        status: Some(StatusMessage { level, message: status }),
                        live_timer: Some(self.next_ticket),
                        next_ticket: (self.next_ticket + 1) as u64,
                        ..self
                    },
                    Some(ClearTimer { ticket: self.next_ticket, seconds }),
                ),
                None => (
                    StatusBar {
                        status: Some(StatusMessage { level, message: status }),
                        live_timer: None,
                        ..self
                    },
                    None,
                ),
            }
        }
    }

    /// Sets the status, and returns the timer to start where the status
    /// is to go away.
    pub fn set_status(&mut self, status: String, level: StatusLevel, duration: StatusDuration) -> (r:
        Option<ClearTimer>)
        requires
            old(self).wf(),
            old(self).can_issue(),
        ensures
            final(self).wf(),
            (*final(self), r) == old(self).spec_set_status(status, level, duration),
    {
        if duration == StatusDuration::Annoying {
            self.last_annoying = Some(StatusMessage { level, message: status });
            None
        } else if status.as_str().is_empty() && self.last_annoying.is_some() {
            self.status = match &self.last_annoying {
                Some(m) => Some(m.clone()),
                None => None,
            };
            None
        } else {
            self.status = Some(StatusMessage { level, message: status });
            self.live_timer = None;
            match duration.seconds() {
                Some(seconds) => {
                    let ticket: u64 = self.next_ticket;
                    self.next_ticket = ticket + 1;
                    self.live_timer = Some(ticket);
                    Some(ClearTimer { ticket, seconds })
                },
                None => None,
            }
        }
    }

    /// The timer with this ticket has run out. Where it is the one that
    /// counts, the status is to go back to "ready"; a timer overtaken by a
    /// later status yields nothing.
    pub fn timer_elapsed(&mut self, ticket: u64) -> (r: Option<Action>)
        ensures
            final(self).status == old(self).status,
            final(self).last_annoying == old(self).last_annoying,
            final(self).next_ticket == old(self).next_ticket,
            old(self).live_timer == Some(ticket) ==> final(self).live_timer.is_none() && (r matches Some(
                Action::Status(StatusAction::UpdateStatus(level, text)),
            ) && level == StatusLevel::Info && text@ == "ready"@),
            old(self).live_timer != Some(ticket) ==> final(self).live_timer == old(self).live_timer
                && r.is_none(),
            old(self).wf() ==> final(self).wf(),
    {
        let live = match self.live_timer {
            Some(t) => t == ticket,
            None => false,
        };
        if live {
            self.live_timer = None;
            Some(
                Action::Status(
                    StatusAction::UpdateStatus(StatusLevel::Info, String::from_str("ready")),
                ),
            )
        } else {
            None
        }
    }

    /// Shows an information that stays long.
    pub fn info(&mut self, status: String) -> (r: Option<ClearTimer>)
        requires
            old(self).wf(),
            old(self).can_issue(),
        ensures
            final(self).wf(),
            (*final(self), r) == old(self).spec_set_status(
                status,
                StatusLevel::Info,
                StatusDuration::Long,
            ),
    {
        self.set_status(status, StatusLevel::Info, StatusDuration::Long)
    }

    /// Shows an information for the given duration.
    pub fn info_with_duration(&mut self, duration: StatusDuration, status: String) -> (r: Option<
        ClearTimer,
    >)
        requires
            old(self).wf(),
            old(self).can_issue(),
        ensures
            final(self).wf(),
            (*final(self), r) == old(self).spec_set_status(
                status,
                StatusLevel::Info,
                duration,
            ),
    {
        self.set_status(status, StatusLevel::Info, duration)
    }

    /// Shows a progress message that stays until the next status.
    pub fn progress(&mut self, status: String) -> (r: Option<ClearTimer>)
        requires
            old(self).wf(),
            old(self).can_issue(),
        ensures
            final(self).wf(),
            (*final(self), r) == old(self).spec_set_status(
                status,
                StatusLevel::Progress,
                StatusDuration::Sticky,
            ),
    {
        self.set_status(status, StatusLevel::Progress, StatusDuration::Sticky)
    }

    /// Shows a progress message for the given duration.
    pub fn progress_with_duration(&mut self, duration: StatusDuration, status: String) -> (r:
        Option<ClearTimer>)
        requires
            old(self).wf(),
            old(self).can_issue(),
        ensures
            final(self).wf(),
            (*final(self), r) == old(self).spec_set_status(
                status,
                StatusLevel::Progress,
                duration,
            ),
    {
        self.set_status(status, StatusLevel::Progress, duration)
    }

    /// Shows a success message that stays long.
    pub fn success(&mut self, status: String) -> (r: Option<ClearTimer>)
        requires
            old(self).wf(),
            old(self).can_issue(),
        ensures
            final(self).wf(),
            (*final(self), r) == old(self).spec_set_status(
                status,
                StatusLevel::Success,
                StatusDuration::Long,
            ),
    {
        self.set_status(status, StatusLevel::Success, StatusDuration::Long)
    }

    /// Shows a success message for the given duration.
    pub fn success_with_duration(&mut self, duration: StatusDuration, status: String) -> (r:
        Option<ClearTimer>)
        requires
            old(self).wf(),
            old(self).can_issue(),
        ensures
            final(self).wf(),
            (*final(self), r) == old(self).spec_set_status(
                status,
                StatusLevel::Success,
                duration,
            ),
    {
        self.set_status(status, StatusLevel::Success, duration)
    }

    /// Shows an error that stays long.
    pub fn error(&mut self, status: String) -> (r: Option<ClearTimer>)
        requires
            old(self).wf(),
            old(self).can_issue(),
        ensures
            final(self).wf(),
            (*final(self), r) == old(self).spec_set_status(
                status,
                StatusLevel::Error,
                StatusDuration::Long,
            ),
    {
        self.set_status(status, StatusLevel::Error, StatusDuration::Long)
    }

    /// Shows an error for the given duration.
    pub fn error_with_duration(&mut self, duration: StatusDuration, status: String) -> (r: Option<
        ClearTimer,
    >)
        requires
            old(self).wf(),
            old(self).can_issue(),
        ensures
            final(self).wf(),
            (*final(self), r) == old(self).spec_set_status(
                status,
                StatusLevel::Error,
                duration,
            ),
    {
        self.set_status(status, StatusLevel::Error, duration)
    }

    /// The level and duration with which a status action sets the status:
    /// an update without a duration stays long, but for a progress
    /// message, which stays until the next status.
    pub open spec fn spec_level_and_duration(action: StatusAction) -> (StatusLevel, StatusDuration) {
        match action {
            StatusAction::UpdateStatus(level, _) => (
                level,
                if level == StatusLevel::Progress {
                    StatusDuration::Sticky
                } else {
                    StatusDuration::Long
                },
            ),
            StatusAction::UpdateStatusWithDuration(level, duration, _) => (level, duration),
        }
    }

    /// Takes an action. A status action sets the status; every other
    /// action leaves the bar as it is.
    pub fn update(&mut self, action: Action) -> (r: Option<ClearTimer>)
        requires
            old(self).wf(),
            old(self).can_issue(),
        ensures
            final(self).wf(),
            match action {
                Action::Status(StatusAction::UpdateStatus(level, message)) => (*final(self), r)
                    == old(self).spec_set_status(
                    message,
                    level,
                    Self::spec_level_and_duration(StatusAction::UpdateStatus(level, message)).1,
                ),
                Action::Status(StatusAction::UpdateStatusWithDuration(level, duration, message)) => (
                    *final(self),
                    r,
                ) == old(self).spec_set_status(message, level, duration),
                _ => *final(self) == *old(self) && r.is_none(),
            },
    {
        match action {
            Action::Status(StatusAction::UpdateStatus(level, message)) => match level {
                StatusLevel::Info => self.info(message),
                StatusLevel::Progress => self.progress(message),
                StatusLevel::Success => self.success(message),
                StatusLevel::Error => self.error(message),
            },
            Action::Status(StatusAction::UpdateStatusWithDuration(level, duration, message)) => match level {
                StatusLevel::Info => self.info_with_duration(duration, message),
                StatusLevel::Progress => self.progress_with_duration(duration, message),
                StatusLevel::Success => self.success_with_duration(duration, message),
                StatusLevel::Error => self.error_with_duration(duration, message),
            },
            _ => None,
        }
    }
}

} // verus!
