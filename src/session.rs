//! One run over the target paths, as a state machine.
//!
//! For each path, in order: ask whether it exists (interactive runs only),
//! ask the operator when it does, create its parent directories, open it for
//! appending (creating it, never truncating it), set its access and
//! modification times to now, and report it (unless quiet). A declined path
//! is skipped; the first failed operation ends the run with its error.
use vstd::prelude::*;

use crate::answer::affirmative;

verus! {

/// How a run was asked to behave.
#[derive(Clone, Copy, Debug, PartialEq, Eq)]
pub struct Options {
    /// How many target paths were given; they are numbered from 0 in order.
    pub path_count: usize,
    /// Print neither the banner nor the per-path lines.
    pub quiet: bool,
    /// Ask the operator before touching a path that already exists.
    pub interactive: bool,
}

/// Why a run stopped early; each variant names the target path by number.
#[derive(Clone, Copy, Debug, PartialEq, Eq)]
pub enum TouchError {
    /// The parent directories of the path could not be created.
    DirectoryCreateFailed(usize),
    /// The path could not be opened for writing.
    FileOpenFailed(usize),
    /// The access and modification times of the path could not be set.
    TimestampUpdateFailed(usize),
}

/// The operation that the caller performs next.
#[derive(Clone, Copy, Debug, PartialEq, Eq)]
pub enum Action {
    /// Find out whether anything exists at the path; answer with
    /// `Event::Exists`.
    CheckExists(usize),
    /// Ask the operator whether to overwrite the path, and read one byte;
    /// answer with `Event::Answer`.
    Confirm(usize),
    /// Create the parent directory of the path and its missing ancestors.
    CreateParentDir(usize),
    /// Open the path for appending, creating it if it is missing.
    OpenAppend(usize),
    /// Set the access and modification times of the path to now.
    SetTimesNow(usize),
    /// Print a line for the path, preceded by the banner when `banner` holds.
    Report { index: usize, banner: bool },
    /// The run is over, with this outcome.
    Finish(Result<(), TouchError>),
}

/// What the caller hands back after performing an action.
#[derive(Clone, Copy, Debug, PartialEq, Eq)]
pub enum Event {
    /// The operation succeeded (a report always does).
    Succeeded,
    /// The operation failed.
    Failed,
    /// Whether the path exists.
    Exists(bool),
    /// The byte that the operator typed, or none.
    Answer(Option<u8>),
}

/// Which operation a session waits on for the current path.
#[derive(Clone, Copy, Debug, PartialEq, Eq)]
pub enum Phase {
    Check,
    Confirm,
    MakeDir,
    Open,
    Stamp,
    Report,
    Finished(Result<(), TouchError>),
}

/// The state of one run.
#[derive(Clone, Copy, Debug, PartialEq, Eq)]
pub struct Session {
    pub options: Options,
    /// The current path.
    pub index: usize,
    pub phase: Phase,
    /// Whether the banner has been asked for already.
    pub banner_shown: bool,
}

impl Event {
    /// Whether the event lets the current path go on: a success, an existing
    /// path, or an affirmative answer.
    pub open spec fn positive(self) -> bool {
        match self {
            Event::Succeeded => true,
            Event::Failed => false,
            Event::Exists(e) => e,
            Event::Answer(b) => affirmative(b),
        }
    }
}

impl TouchError {
    /// The path that the error is about.
    pub open spec fn index_spec(self) -> usize {
        match self {
            TouchError::DirectoryCreateFailed(i) => i,
            TouchError::FileOpenFailed(i) => i,
            TouchError::TimestampUpdateFailed(i) => i,
        }
    }
}

impl Action {
    /// The path that the action operates on, if any.
    pub open spec fn target(self) -> Option<usize> {
        match self {
            Action::CheckExists(i) => Some(i),
            Action::Confirm(i) => Some(i),
            Action::CreateParentDir(i) => Some(i),
            Action::OpenAppend(i) => Some(i),
            Action::SetTimesNow(i) => Some(i),
            Action::Report { index, .. } => Some(index),
            Action::Finish(_) => None,
        }
    }
}

impl Session {
    /// The state at the start of path `index`, or the successful end of the
    /// run when no such path is left.
    pub open spec fn enter(options: Options, index: usize, banner_shown: bool) -> Session {
        Session {
            options,
            index,
            phase: if index >= options.path_count {
                Phase::Finished(Ok(()))
            } else if options.interactive {
                Phase::Check
            } else {
                Phase::MakeDir
            },
            banner_shown,
        }
    }

    /// The state before any operation.
    pub open spec fn initial(options: Options) -> Session {
        Session::enter(options, 0, false)
    }

    /// The state once the current path is done with, successfully or skipped.
    pub open spec fn after_path(self) -> Session {
        if self.index + 1 < self.options.path_count {
            Session::enter(self.options, (self.index + 1) as usize, self.banner_shown)
        } else {
            Session { phase: Phase::Finished(Ok(())), ..self }
        }
    }

    /// The state after the outcome of the current action; `positive` is the
    /// event's verdict (see `Event::positive`).
    pub open spec fn next(self, positive: bool) -> Session {
        match self.phase {
            Phase::Check => Session { phase: if positive { Phase::Confirm } else { Phase::MakeDir }, ..self },
            Phase::Confirm => if positive {
                Session { phase: Phase::MakeDir, ..self }
            } else {
                self.after_path()
            },
            Phase::MakeDir => Session {
                phase: if positive {
                    Phase::Open
                } else {
                    Phase::Finished(Err(TouchError::DirectoryCreateFailed(self.index)))
                },
                ..self
            },
            Phase::Open => Session {
                phase: if positive {
                    Phase::Stamp
                } else {
                    Phase::Finished(Err(TouchError::FileOpenFailed(self.index)))
                },
                ..self
            },
            Phase::Stamp => if !positive {
                Session {
                    phase: Phase::Finished(Err(TouchError::TimestampUpdateFailed(self.index))),
                    ..self
                }
            } else if self.options.quiet {
                self.after_path()
            } else {
                Session { phase: Phase::Report, ..self }
            },
            Phase::Report => Session { banner_shown: true, ..self }.after_path(),
            Phase::Finished(_) => self,
        }
    }

    /// The action that the state asks for.
    pub open spec fn action_spec(self) -> Action {
        match self.phase {
            Phase::Check => Action::CheckExists(self.index),
            Phase::Confirm => Action::Confirm(self.index),
            Phase::MakeDir => Action::CreateParentDir(self.index),
            Phase::Open => Action::OpenAppend(self.index),
            Phase::Stamp => Action::SetTimesNow(self.index),
            Phase::Report => Action::Report { index: self.index, banner: !self.banner_shown },
            Phase::Finished(r) => Action::Finish(r),
        }
    }

    /// Starts a run.
    pub fn new(options: Options) -> (s: Session)
        ensures
            s == Session::initial(options),
    {
        Session::enter_exec(options, 0, false)
    }

    fn enter_exec(options: Options, index: usize, banner_shown: bool) -> (s: Session)
        ensures
            s == Session::enter(options, index, banner_shown),
    {
        let phase = if index >= options.path_count {
            Phase::Finished(Ok(()))
        } else if options.interactive {
            Phase::Check
        } else {
            Phase::MakeDir
        };
        Session { options, index, phase, banner_shown }
    }

    fn after_path_exec(&self) -> (s: Session)
        ensures
            s == self.after_path(),
    {
        if self.index < self.options.path_count && self.options.path_count - self.index > 1 {
            Session::enter_exec(self.options, self.index + 1, self.banner_shown)
        } else {
            Session { phase: Phase::Finished(Ok(())), ..*self }
        }
    }

    /// The operation to perform now.
    pub fn action(&self) -> (r: Action)
        ensures
            r == self.action_spec(),
    {
        match self.phase {
            Phase::Check => Action::CheckExists(self.index),
            Phase::Confirm => Action::Confirm(self.index),
            Phase::MakeDir => Action::CreateParentDir(self.index),
            Phase::Open => Action::OpenAppend(self.index),
            Phase::Stamp => Action::SetTimesNow(self.index),
            Phase::Report => Action::Report { index: self.index, banner: !self.banner_shown },
            Phase::Finished(r) => Action::Finish(r),
        }
    }

    /// Takes the outcome of the current action and returns the next one.
    /// Once the run is finished, it stays finished.
    pub fn advance(&mut self, event: Event) -> (r: Action)
        ensures
            *final(self) == old(self).next(event.positive()),
            r == final(self).action_spec(),
    {
        let positive = match event {
            Event::Succeeded => true,
            Event::Failed => false,
            Event::Exists(e) => e,
            Event::Answer(b) => crate::answer::is_affirmative(b),
        };
        let s = *self;
        *self = match s.phase {
            Phase::Check => Session { phase: if positive { Phase::Confirm } else { Phase::MakeDir }, ..s },
            Phase::Confirm => if positive {
                Session { phase: Phase::MakeDir, ..s }
            } else {
                s.after_path_exec()
            },
            Phase::MakeDir => Session {
                phase: if positive {
                    Phase::Open
                } else {
                    Phase::Finished(Err(TouchError::DirectoryCreateFailed(s.index)))
                },
                ..s
            },
            Phase::Open => Session {
                phase: if positive {
                    Phase::Stamp
                } else {
                    Phase::Finished(Err(TouchError::FileOpenFailed(s.index)))
                },
                ..s
            },
            Phase::Stamp => if !positive {
                Session {
                    phase: Phase::Finished(Err(TouchError::TimestampUpdateFailed(s.index))),
                    ..s
                }
            } else if s.options.quiet {
                s.after_path_exec()
            } else {
                Session { phase: Phase::Report, ..s }
            },
            Phase::Report => Session { banner_shown: true, ..s }.after_path_exec(),
            Phase::Finished(_) => s,
        };
        self.action()
    }
}

} // verus!
