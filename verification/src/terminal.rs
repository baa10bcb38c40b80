//! The decisions of the interactive event loop. The loop itself (drawing, reading keys,
//! talking to the collection worker, writing report files) runs outside; it hands each
//! worker update and each key action to the functions here and performs what they ask.

use vstd::prelude::*;

use crate::action::Action;
use crate::app::{network_totals_fit, App};
use crate::runtime::RuntimeCommand;
use crate::runtime::RuntimeUpdate;
use crate::text::join2;

verus! {

/// Where the interface gets its system data.
#[derive(Clone, Copy, Debug, PartialEq, Eq, Structural)]
pub enum RunMode {
    /// The machine the program runs on.
    Local,
    /// Simulated, reproducible data.
    Demo,
}

impl RunMode {
    /// Whether the worker simulates its data.
    pub fn is_demo(self) -> (r: bool)
        ensures
            r == (self == RunMode::Demo),
    {
        match self {
            RunMode::Demo => true,
            RunMode::Local => false,
        }
    }
}

/// What the event loop must do after a key, beyond the change to the interface state.
#[derive(Clone, Copy, Debug, PartialEq, Eq, Structural)]
pub enum KeyEffect {
    /// Write a JSON report of the current snapshot, then pass the outcome to
    /// `App::record_export`.
    ExportReport,
    /// Send this command to the collection worker.
    Send(RuntimeCommand),
    /// Nothing more.
    Nothing,
}

/// Whether a worker update can be taken: a new snapshot's network counters must add up
/// within `u64`.
pub open spec fn update_fits(update: RuntimeUpdate) -> bool {
    match update {
        RuntimeUpdate::Snapshot(snapshot) => network_totals_fit(*snapshot),
        _ => true,
    }
}

impl App {
    /// Takes one update from the collection worker; an error becomes the status message.
    pub fn handle_update(&mut self, update: RuntimeUpdate)
        requires
            update_fits(update),
        ensures
            match update {
                RuntimeUpdate::Snapshot(snapshot) => App::snapshot_taken(
                    *old(self),
                    *final(self),
                    *snapshot,
                ),
                RuntimeUpdate::Services(services) => App::services_taken(
                    *old(self),
                    *final(self),
                    services,
                ),
                RuntimeUpdate::Sockets(sockets) => App::sockets_taken(
                    *old(self),
                    *final(self),
                    sockets,
                ),
                RuntimeUpdate::Logs(batch) => App::logs_taken(*old(self), *final(self), batch),
                RuntimeUpdate::Error(error) => *final(self) == (App {
                    message: Some(error),
                    ..*old(self)
                }),
            },
    {
        match update {
            RuntimeUpdate::Snapshot(snapshot) => self.update_snapshot(*snapshot),
            RuntimeUpdate::Services(services) => self.update_services(services),
            RuntimeUpdate::Sockets(sockets) => self.update_sockets(sockets),
            RuntimeUpdate::Logs(batch) => self.update_logs(batch),
            RuntimeUpdate::Error(error) => self.message = Some(error),
        }
    }

    /// Handles a key action: the export is left to the caller; every other action changes the
    /// state as `apply` does. Pausing tells the worker the new pause state, and a refresh is
    /// passed on to the worker at once, so no refresh stays pending.
    pub fn handle_key(&mut self, action: Action) -> (r: KeyEffect)
        requires
            action == Action::MoveDown ==> old(self).selection() < usize::MAX,
        ensures
            match action {
                Action::ExportReport => r == KeyEffect::ExportReport && *final(self) == *old(
                    self,
                ),
                Action::Refresh => r == KeyEffect::Send(RuntimeCommand::Refresh) && *final(self)
                    == (App { force_refresh: false, ..*old(self) }),
                Action::TogglePause => {
                    &&& r == KeyEffect::Send(RuntimeCommand::SetPaused(final(self).paused))
                    &&& App::applied(*old(self), *final(self), action)
                },
                _ => r == KeyEffect::Nothing && App::applied(*old(self), *final(self), action),
            },
    {
        match action {
            Action::ExportReport => KeyEffect::ExportReport,
            Action::Refresh => {
                self.apply(action);
                self.force_refresh = false;
                KeyEffect::Send(RuntimeCommand::Refresh)
            },
            Action::TogglePause => {
                self.apply(action);
                KeyEffect::Send(RuntimeCommand::SetPaused(self.paused))
            },
            _ => {
                self.apply(action);
                KeyEffect::Nothing
            },
        }
    }

    /// Records how writing a report went: the saved file's path, or why it failed.
    pub fn record_export(&mut self, outcome: Result<String, String>)
        ensures
            final(self).message is Some,
            final(self).message->0@ == match outcome {
                Ok(path) => "Report saved to "@ + path@,
                Err(error) => "Export failed: "@ + error@,
            },
            *final(self) == (App { message: final(self).message, ..*old(self) }),
    {
        let text = match &outcome {
            Ok(path) => join2("Report saved to ", path.as_str()),
            Err(error) => join2("Export failed: ", error.as_str()),
        };
        proof {
            reveal_strlit("Report saved to ");
            reveal_strlit("Export failed: ");
        }
        self.message = Some(text);
    }
}

} // verus!
