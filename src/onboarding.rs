//! The Windows onboarding step: continue in the current environment, or
//! leave to install WSL2.

use vstd::prelude::*;
use crate::keys::{KeyCode, KeyEvent, KeyEventKind};
use crate::text::concat3;

verus! {

/// The two choices of the step.
#[derive(Debug, Clone, Copy, PartialEq, Eq, Structural)]
pub enum WindowsSetupSelection {
    Continue,
    Install,
}

/// Where an onboarding step stands.
#[derive(Debug, Clone, Copy, PartialEq, Eq, Structural)]
pub enum StepState {
    Hidden,
    InProgress,
    Complete,
}

/// What a key asks the caller to do.
#[derive(Debug, Clone, Copy, PartialEq, Eq, Structural)]
pub enum SetupRequest {
    Nothing,
    /// Persist the acknowledgement, then hand the result to `finish_continue`.
    PersistAcknowledgement,
}

/// The state of the Windows onboarding step.
pub struct WindowsSetupWidget {
    pub codex_home: String,
    pub selection: Option<WindowsSetupSelection>,
    pub highlighted: WindowsSetupSelection,
    pub error: Option<String>,
    pub exit_requested: bool,
}

impl WindowsSetupWidget {
    pub open spec fn spec_exit_requested(&self) -> bool {
        self.exit_requested
    }

    /// A fresh step with "install" highlighted and nothing chosen.
    pub fn new(codex_home: String) -> (r: WindowsSetupWidget)
        ensures
            r.codex_home == codex_home,
            r.selection is None,
            r.highlighted == WindowsSetupSelection::Install,
            r.error is None,
            !r.spec_exit_requested(),
    {
        WindowsSetupWidget {
            codex_home,
            selection: None,
            highlighted: WindowsSetupSelection::Install,
            error: None,
            exit_requested: false,
        }
    }

    /// Chooses to install WSL2, which ends onboarding.
    pub fn handle_install(&mut self)
        ensures
            final(self).highlighted == WindowsSetupSelection::Install,
            final(self).selection == Some(WindowsSetupSelection::Install),
            final(self).spec_exit_requested(),
            final(self).codex_home == old(self).codex_home,
            final(self).error == old(self).error,
    {
        self.highlighted = WindowsSetupSelection::Install;
        self.selection = Some(WindowsSetupSelection::Install);
        self.exit_requested = true;
    }

    /// Chooses to continue, once the acknowledgement was persisted (or
    /// failed to be, with the reason given).
    pub fn finish_continue(&mut self, persisted: Result<(), String>)
        ensures
            final(self).highlighted == WindowsSetupSelection::Continue,
            final(self).codex_home == old(self).codex_home,
            persisted is Ok ==> final(self).selection == Some(WindowsSetupSelection::Continue)
                && !final(self).spec_exit_requested() && final(self).error is None,
            persisted is Err ==> final(self).selection is None && final(self).error is Some
                && final(self).error->Some_0@ == "更新配置失败："@ + persisted->Err_0@
                && final(self).spec_exit_requested() == old(self).spec_exit_requested(),
    {
        self.highlighted = WindowsSetupSelection::Continue;
        match persisted {
            Ok(()) => {
                self.selection = Some(WindowsSetupSelection::Continue);
                self.exit_requested = false;
                self.error = None;
            },
            Err(reason) => {
                self.error = Some(concat3("更新配置失败：", reason.as_str(), ""));
                proof {
                    reveal_strlit("");
                }
                assert(self.error->Some_0@ =~= "更新配置失败："@ + reason@);
                self.selection = None;
            },
        }
    }

    /// Whether the user chose to leave and install WSL2.
    pub fn exit_requested(&self) -> (r: bool)
        ensures
            r == self.spec_exit_requested(),
    {
        self.exit_requested
    }

    /// Hidden once the user continued, complete once they chose to
    /// install, in progress before.
    pub fn get_step_state(&self) -> (r: StepState)
        ensures
            self.selection == Some(WindowsSetupSelection::Continue) ==> r == StepState::Hidden,
            self.selection == Some(WindowsSetupSelection::Install) ==> r == StepState::Complete,
            self.selection is None ==> r == StepState::InProgress,
    {
        match self.selection {
            Some(WindowsSetupSelection::Continue) => StepState::Hidden,
            Some(WindowsSetupSelection::Install) => StepState::Complete,
            None => StepState::InProgress,
        }
    }

    /// Handles a key: up and `k` highlight install, down and `j` highlight
    /// continue, `1` installs, `2` continues, Enter takes the highlighted
    /// choice; releases and other keys do nothing. Continuing first needs
    /// the acknowledgement persisted, which the caller is asked to do.
    pub fn handle_key_event(&mut self, key: KeyEvent) -> (r: SetupRequest)
        ensures
            key.kind == KeyEventKind::Release ==> r == SetupRequest::Nothing && final(self).selection
                == old(self).selection && final(self).highlighted == old(self).highlighted,
            key.kind != KeyEventKind::Release && (key.code == KeyCode::Char('2') || (key.code
                == KeyCode::Enter && old(self).highlighted == WindowsSetupSelection::Continue)) ==> r
                == SetupRequest::PersistAcknowledgement,
            key.kind != KeyEventKind::Release && (key.code == KeyCode::Char('1') || (key.code
                == KeyCode::Enter && old(self).highlighted == WindowsSetupSelection::Install)) ==> r
                == SetupRequest::Nothing && final(self).selection == Some(
                WindowsSetupSelection::Install,
            ) && final(self).spec_exit_requested(),
            key.kind != KeyEventKind::Release && (key.code == KeyCode::Up || key.code
                == KeyCode::Char('k')) ==> final(self).highlighted == WindowsSetupSelection::Install,
            key.kind != KeyEventKind::Release && (key.code == KeyCode::Down || key.code
                == KeyCode::Char('j')) ==> final(self).highlighted == WindowsSetupSelection::Continue,
            final(self).codex_home == old(self).codex_home,
    {
        if key.kind == KeyEventKind::Release {
            return SetupRequest::Nothing;
        }
        match key.code {
            KeyCode::Up | KeyCode::Char('k') => {
                self.highlighted = WindowsSetupSelection::Install;
                SetupRequest::Nothing
            },
            KeyCode::Down | KeyCode::Char('j') => {
                self.highlighted = WindowsSetupSelection::Continue;
                SetupRequest::Nothing
            },
            KeyCode::Char('1') => {
                self.handle_install();
                SetupRequest::Nothing
            },
            KeyCode::Char('2') => SetupRequest::PersistAcknowledgement,
            KeyCode::Enter => match self.highlighted {
                WindowsSetupSelection::Install => {
                    self.handle_install();
                    SetupRequest::Nothing
                },
                WindowsSetupSelection::Continue => SetupRequest::PersistAcknowledgement,
            },
            _ => SetupRequest::Nothing,
        }
    }
}

} // verus!
