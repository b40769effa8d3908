//! The operation controller: one lifecycle operation on a VM, with an optional
//! profile substituted around it, as a state machine.
//!
//! The caller performs each action it is handed (loading a document, swapping,
//! running the control tool, restoring) and feeds the outcome back as an event,
//! until the action is `Finish`. Once a swap has been attempted, a restore is
//! always asked for before the operation finishes, whatever the control tool
//! did.
use vstd::prelude::*;
use crate::control::{Verb, verb_of};
use crate::engine::{EngineError, FileRole, after_restore, after_swap, backup_consistent, lemma_restore_undoes_swap, probe_of, swap_failure};
use crate::model::{HardwareProfile, Settings, find_profile, first_with_id};

verus! {

/// Where an operation stands: what it waits for.
#[derive(Clone, Copy, Debug, PartialEq, Eq, Structural)]
pub enum Phase {
    LoadingSettings,
    LoadingProfiles,
    Swapping,
    Running,
    Restoring,
    Finished,
}

/// Why an operation failed.
#[derive(Clone, Debug, PartialEq, Eq)]
pub enum OperationError {
    /// The verb is not one of the control tool's.
    UnsupportedVerb,
    /// The settings name no installation path.
    ConfigurationMissing,
    /// The settings could not be loaded.
    SettingsUnavailable(String),
    /// The profile collection could not be loaded.
    ProfilesUnavailable(String),
    /// The swap did not complete.
    Substitution(EngineError),
    /// The control tool could not be run.
    Tool(String),
    /// The restore did not complete.
    Restore(EngineError),
}

impl OperationError {
    /// A copy of this error.
    pub fn duplicate(&self) -> (r: OperationError)
        ensures
            r == *self,
    {
        match self {
            OperationError::UnsupportedVerb => OperationError::UnsupportedVerb,
            OperationError::ConfigurationMissing => OperationError::ConfigurationMissing,
            OperationError::SettingsUnavailable(m) => OperationError::SettingsUnavailable(m.clone()),
            OperationError::ProfilesUnavailable(m) => OperationError::ProfilesUnavailable(m.clone()),
            OperationError::Substitution(e) => OperationError::Substitution(e.duplicate()),
            OperationError::Tool(m) => OperationError::Tool(m.clone()),
            OperationError::Restore(e) => OperationError::Restore(e.duplicate()),
        }
    }
}

/// What the caller is to do next.
#[derive(Debug, PartialEq, Eq)]
pub enum Action {
    /// Load the settings document.
    LoadSettings,
    /// Load the hardware profile collection.
    LoadProfiles,
    /// Swap the installed executable for `custom_executable`.
    Swap { install_root: String, custom_executable: String },
    /// Run the control tool with the arguments of `verb` on `vm_path`.
    RunTool { verb: Verb, vm_path: String },
    /// Restore the installed executable from its backup.
    Restore { install_root: String },
    /// Report: the first error of the operation, and whether a restore failed
    /// (which an earlier error would otherwise hide).
    Finish { result: Result<(), OperationError>, restore_failure: Option<EngineError> },
}

/// The outcome of an action.
#[derive(Debug, PartialEq, Eq)]
pub enum Event {
    SettingsLoaded(Settings),
    SettingsFailed(String),
    ProfilesLoaded(Vec<HardwareProfile>),
    ProfilesFailed(String),
    Swapped(Result<(), EngineError>),
    ToolFinished(Result<(), String>),
    Restored(Result<(), EngineError>),
}

/// One lifecycle operation in progress.
#[derive(Debug, PartialEq, Eq)]
pub struct Operation {
    pub verb: Verb,
    pub vm_path: String,
    pub profile_id: Option<String>,
    pub phase: Phase,
    /// The installation root, once the settings are loaded.
    pub install_root: String,
    /// A swap was attempted and no restore has completed since.
    pub engaged: bool,
    /// The first error met so far.
    pub first_error: Option<OperationError>,
}

/// Whether `ev` is the outcome that an operation in `s` waits for.
pub open spec fn awaits(s: Operation, ev: Event) -> bool {
    match ev {
        Event::SettingsLoaded(_) | Event::SettingsFailed(_) => s.phase == Phase::LoadingSettings,
        Event::ProfilesLoaded(_) | Event::ProfilesFailed(_) => s.phase == Phase::LoadingProfiles,
        Event::Swapped(_) => s.phase == Phase::Swapping,
        Event::ToolFinished(_) => s.phase == Phase::Running,
        Event::Restored(_) => s.phase == Phase::Restoring,
    }
}

/// The operation's invariant: no swap is outstanding before the profiles are
/// looked up or after it finished, a restore is only asked for after a swap,
/// and no error is met before the restore or the end.
pub open spec fn inv(s: Operation) -> bool {
    &&& (s.phase == Phase::LoadingSettings || s.phase == Phase::LoadingProfiles
        || s.phase == Phase::Finished) ==> !s.engaged
    &&& (s.phase == Phase::Swapping || s.phase == Phase::Restoring) ==> s.engaged
    &&& (s.phase == Phase::Restoring || s.phase == Phase::Finished) || s.first_error is None
}

pub open spec fn finished(s: Operation) -> Operation {
    Operation { phase: Phase::Finished, engaged: false, ..s }
}

pub open spec fn run_tool(s: Operation) -> Action {
    Action::RunTool { verb: s.verb, vm_path: s.vm_path }
}

pub open spec fn restore(s: Operation) -> Action {
    Action::Restore { install_root: s.install_root }
}

pub open spec fn fail(e: OperationError) -> Action {
    Action::Finish { result: Err(e), restore_failure: None }
}

/// The report once the restore is done: the first error of the operation, else
/// the restore's.
pub open spec fn after_restore_report(first: Option<OperationError>, r: Result<(), EngineError>) -> Action {
    Action::Finish {
        result: match first {
            Some(e) => Err(e),
            None => match r {
                Ok(()) => Ok(()),
                Err(e) => Err(OperationError::Restore(e)),
            },
        },
        restore_failure: match r {
            Ok(()) => None,
            Err(e) => Some(e),
        },
    }
}

/// The next state and action of an operation in `s` on the outcome `ev`.
pub open spec fn next(s: Operation, ev: Event) -> (Operation, Action) {
    match ev {
        Event::SettingsFailed(m) => (finished(s), fail(OperationError::SettingsUnavailable(m))),
        Event::SettingsLoaded(st) => match st.installation_path {
            None => (finished(s), fail(OperationError::ConfigurationMissing)),
            Some(root) => match s.profile_id {
                Some(_) => (
                    Operation { phase: Phase::LoadingProfiles, install_root: root, ..s },
                    Action::LoadProfiles,
                ),
                None => (
                    Operation { phase: Phase::Running, install_root: root, ..s },
                    run_tool(s),
                ),
            },
        },
        Event::ProfilesFailed(m) => (finished(s), fail(OperationError::ProfilesUnavailable(m))),
        Event::ProfilesLoaded(ps) => match s.profile_id {
            Some(id) => match first_with_id(ps@, id@) {
                Some(i) => (
                    Operation { phase: Phase::Swapping, engaged: true, ..s },
                    Action::Swap {
                        install_root: s.install_root,
                        custom_executable: ps@[i].executable_path,
                    },
                ),
                None => (Operation { phase: Phase::Running, ..s }, run_tool(s)),
            },
            None => (Operation { phase: Phase::Running, ..s }, run_tool(s)),
        },
        Event::Swapped(Ok(())) => (Operation { phase: Phase::Running, ..s }, run_tool(s)),
        Event::Swapped(Err(e)) => (
            Operation {
                phase: Phase::Restoring,
                first_error: Some(OperationError::Substitution(e)),
                ..s
            },
            restore(s),
        ),
        Event::ToolFinished(r) => {
            let first = match r {
                Ok(()) => None,
                Err(m) => Some(OperationError::Tool(m)),
            };
            if s.engaged {
                (Operation { phase: Phase::Restoring, first_error: first, ..s }, restore(s))
            } else {
                (
                    Operation { phase: Phase::Finished, first_error: first, ..s },
                    Action::Finish {
                        result: match first {
                            Some(e) => Err(e),
                            None => Ok(()),
                        },
                        restore_failure: None,
                    },
                )
            }
        },
        Event::Restored(r) => (finished(s), after_restore_report(s.first_error, r)),
    }
}

impl Operation {
    /// Starts an operation: `verb_text` must name a verb of the control tool,
    /// else the operation fails as unsupported before anything is loaded,
    /// swapped or run. The first action is to load the settings.
    pub fn begin(verb_text: &str, vm_path: String, profile_id: Option<String>) -> (r: Result<
        (Operation, Action),
        OperationError,
    >)
        ensures
            match r {
                Ok((op, a)) => verb_of(verb_text@) == Some(op.verb) && op.vm_path == vm_path
                    && op.profile_id == profile_id && op.phase == Phase::LoadingSettings
                    && !op.engaged && op.first_error is None && a == Action::LoadSettings,
                Err(e) => verb_of(verb_text@) is None && e == OperationError::UnsupportedVerb,
            },
            r is Ok ==> inv(r->Ok_0.0),
    {
        match Verb::parse(verb_text) {
            None => Err(OperationError::UnsupportedVerb),
            Some(verb) => Ok(
                (
                    Operation {
                        verb,
                        vm_path,
                        profile_id,
                        phase: Phase::LoadingSettings,
                        install_root: String::new(),
                        engaged: false,
                        first_error: None,
                    },
                    Action::LoadSettings,
                ),
            ),
        }
    }

    /// Whether this operation waits for the outcome `ev`.
    pub fn accepts(&self, ev: &Event) -> (r: bool)
        ensures
            r == awaits(*self, *ev),
    {
        match ev {
            Event::SettingsLoaded(_) | Event::SettingsFailed(_) => self.phase == Phase::LoadingSettings,
            Event::ProfilesLoaded(_) | Event::ProfilesFailed(_) => self.phase == Phase::LoadingProfiles,
            Event::Swapped(_) => self.phase == Phase::Swapping,
            Event::ToolFinished(_) => self.phase == Phase::Running,
            Event::Restored(_) => self.phase == Phase::Restoring,
        }
    }

    /// Whether the operation has finished.
    pub fn is_finished(&self) -> (r: bool)
        ensures
            r == (self.phase == Phase::Finished),
    {
        self.phase == Phase::Finished
    }

    /// Advances the operation on the outcome of the action it asked for.
    pub fn step(&mut self, ev: Event) -> (a: Action)
        requires
            awaits(*old(self), ev),
        ensures
            (*final(self), a) == next(*old(self), ev),
    {
        match ev {
            Event::SettingsFailed(m) => {
                self.finish();
                Action::Finish { result: Err(OperationError::SettingsUnavailable(m)), restore_failure: None }
            },
            Event::SettingsLoaded(st) => match st.installation_path {
                None => {
                    self.finish();
                    Action::Finish { result: Err(OperationError::ConfigurationMissing), restore_failure: None }
                },
                Some(root) => {
                    self.install_root = root;
                    if self.profile_id.is_some() {
                        self.phase = Phase::LoadingProfiles;
                        Action::LoadProfiles
                    } else {
                        self.phase = Phase::Running;
                        self.run_tool()
                    }
                },
            },
            Event::ProfilesFailed(m) => {
                self.finish();
                Action::Finish { result: Err(OperationError::ProfilesUnavailable(m)), restore_failure: None }
            },
            Event::ProfilesLoaded(ps) => {
                let found = match &self.profile_id {
                    Some(id) => find_profile(&ps, id),
                    None => None,
                };
                match found {
                    Some(i) => {
                        self.phase = Phase::Swapping;
                        self.engaged = true;
                        Action::Swap {
                            install_root: self.install_root.clone(),
                            custom_executable: ps[i].executable_path.clone(),
                        }
                    },
                    None => {
                        self.phase = Phase::Running;
                        self.run_tool()
                    },
                }
            },
            Event::Swapped(Ok(())) => {
                self.phase = Phase::Running;
                self.run_tool()
            },
            Event::Swapped(Err(e)) => {
                self.phase = Phase::Restoring;
                self.first_error = Some(OperationError::Substitution(e));
                Action::Restore { install_root: self.install_root.clone() }
            },
            Event::ToolFinished(r) => {
                if self.engaged {
                    self.phase = Phase::Restoring;
                    self.first_error = match r {
                        Ok(()) => None,
                        Err(m) => Some(OperationError::Tool(m)),
                    };
                    Action::Restore { install_root: self.install_root.clone() }
                } else {
                    self.phase = Phase::Finished;
                    let result = match r {
                        Ok(()) => {
                            self.first_error = None;
                            Ok(())
                        },
                        Err(m) => {
                            self.first_error = Some(OperationError::Tool(m.clone()));
                            Err(OperationError::Tool(m))
                        },
                    };
                    Action::Finish { result, restore_failure: None }
                }
            },
            Event::Restored(r) => {
                self.finish();
                let restore_failure = match &r {
                    Ok(()) => None,
                    Err(e) => Some(e.duplicate()),
                };
                let result = match &self.first_error {
                    Some(e) => Err(e.duplicate()),
                    None => match r {
                        Ok(()) => Ok(()),
                        Err(e) => Err(OperationError::Restore(e)),
                    },
                };
                Action::Finish { result, restore_failure }
            },
        }
    }

    fn finish(&mut self)
        ensures
            *final(self) == finished(*old(self)),
    {
        self.phase = Phase::Finished;
        self.engaged = false;
    }

    fn run_tool(&self) -> (a: Action)
        ensures
            a == run_tool(*self),
    {
        Action::RunTool { verb: self.verb, vm_path: self.vm_path.clone() }
    }
}

/// Every step keeps the operation's invariant.
pub proof fn lemma_step_keeps_invariant(s: Operation, ev: Event)
    requires
        inv(s),
        awaits(s, ev),
    ensures
        inv(next(s, ev).0),
{
}

/// Once a swap has been attempted, the operation cannot finish before a
/// restore has completed; when it finishes, no swap is outstanding.
pub proof fn lemma_restore_always_owed(s: Operation, ev: Event)
    requires
        inv(s),
        awaits(s, ev),
    ensures
        s.engaged && !(ev is Restored) ==> next(s, ev).0.engaged && !(next(s, ev).1 is Finish),
        next(s, ev).1 is Finish ==> next(s, ev).0.phase == Phase::Finished && !next(s, ev).0.engaged,
{
}

/// Where the control tool fails after a successful swap, the restore is still
/// asked for, the tool's error is the one reported once the restore has
/// succeeded, and the installed executable ends with its content from before
/// the swap.
pub proof fn lemma_restore_after_failure(
    s: Operation,
    m: String,
    dir_exists: bool,
    fs: Map<FileRole, Seq<u8>>,
)
    requires
        inv(s),
        s.phase == Phase::Running,
        s.engaged,
        swap_failure(probe_of(dir_exists, fs)) is None,
        backup_consistent(fs),
    ensures
        next(s, Event::ToolFinished(Err(m))).1 == restore(s),
        next(next(s, Event::ToolFinished(Err(m))).0, Event::Restored(Ok(()))).1 == (Action::Finish {
            result: Err(OperationError::Tool(m)),
            restore_failure: None,
        }),
        after_restore(after_swap(dir_exists, fs))[FileRole::Installed] == fs[FileRole::Installed],
{
    lemma_restore_undoes_swap(dir_exists, fs);
}

} // verus!
