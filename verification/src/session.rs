//! The order of a session, from the check for the renderer to the exit status.
//!
//! A session does one thing after another: check that the renderer is there,
//! ask before overwriting where it was told to, make a working directory, put
//! the assets in it, build once, then serve or watch or neither. Each step is
//! the caller's to perform. Which step follows, given how the last one went,
//! is decided by [`next_step`].
//!
//! Once the working directory exists, no path leads to the exit but through
//! its removal.

use vstd::prelude::*;
use crate::args::{Config, ConfigView};
use crate::render::{RebuildOutcome, GENERAL_FAILURE, RENDERER_MISSING};

verus! {

/// The exit status of a session that went well.
pub const SUCCESS: i32 = 0;

/// What was learnt about overwriting the output.
#[derive(Clone, Copy, Debug, PartialEq, Eq)]
pub enum Overwrite {
    /// There is no output yet: nothing to ask.
    NothingToOverwrite,
    /// The user was asked, and agreed or did not.
    Answered { agreed: bool },
    /// The answer could not be read.
    Unreadable,
}

/// One step of a session, for the caller to perform.
#[derive(Clone, Copy, Debug, PartialEq, Eq)]
pub enum Step {
    /// See whether the renderer can be run.
    CheckRenderer,
    /// If the output exists, ask whether to overwrite it.
    ConfirmOverwrite,
    /// Make the working directory.
    CreateWorkDir,
    /// Write the assets into the working directory.
    WriteAssets,
    /// Render once, unconditionally.
    Build,
    /// Run the watch loop and the preview server until one of them ends.
    Serve,
    /// Run the watch loop until it ends.
    Watch,
    /// Remove the working directory, then leave with `status`. A removal that
    /// fails is worth a warning and changes nothing.
    CleanUp { status: i32 },
    /// Leave with `status`.
    Exit { status: i32 },
}

/// How a step went.
#[derive(Clone, Copy, Debug, PartialEq, Eq)]
pub enum Outcome {
    /// [`Step::CheckRenderer`]: whether the renderer ran and reported success.
    RendererChecked { available: bool },
    /// [`Step::ConfirmOverwrite`]: what was learnt.
    Confirmed(Overwrite),
    /// [`Step::CreateWorkDir`]: whether the directory is there.
    WorkDirCreated { created: bool },
    /// [`Step::WriteAssets`]: whether every asset was written.
    AssetsWritten { written: bool },
    /// [`Step::Build`]: how the build ended.
    Built(RebuildOutcome),
    /// [`Step::Serve`] or [`Step::Watch`]: the status that the mode ended
    /// with, or `None` where the task that ran it died.
    ModeEnded(Option<Result<(), i32>>),
    /// [`Step::CleanUp`]: done, whether or not the removal worked.
    CleanedUp,
}

/// The exit status for a result: zero for success, the error's status else.
pub open spec fn exit_code_of(status: Result<(), i32>) -> i32 {
    match status {
        Ok(_) => SUCCESS,
        Err(code) => code,
    }
}

/// The exit status for a result.
pub fn exit_code(status: Result<(), i32>) -> (code: i32)
    ensures
        code == exit_code_of(status),
{
    match status {
        Ok(_) => SUCCESS,
        Err(code) => code,
    }
}

/// What a finished task amounts to: its own result, or a general failure
/// where the task died before it had one.
pub open spec fn task_result_of(joined: Option<Result<(), i32>>) -> Result<(), i32> {
    match joined {
        Some(result) => result,
        None => Err(GENERAL_FAILURE),
    }
}

/// Reads the result off a finished task. `joined` is `None` where the task
/// died.
pub fn task_result(joined: Option<Result<(), i32>>) -> (result: Result<(), i32>)
    ensures
        result == task_result_of(joined),
{
    match joined {
        Some(result) => result,
        None => Err(GENERAL_FAILURE),
    }
}

/// The mode that follows the first build: serving where that was asked for,
/// else watching where that was, else nothing more.
pub open spec fn mode_of(config: ConfigView) -> Step {
    if config.serve {
        Step::Serve
    } else if config.watch {
        Step::Watch
    } else {
        Step::CleanUp { status: SUCCESS }
    }
}

/// Whether the working directory exists while `step` is performed.
pub open spec fn holds_work_dir(step: Step) -> bool {
    step is WriteAssets || step is Build || step is Serve || step is Watch || step is CleanUp
}

/// The step that follows `step`, given how it went.
pub open spec fn step_after(config: ConfigView, step: Step, outcome: Outcome) -> Step {
    match (step, outcome) {
        (Step::Exit { status }, _) => Step::Exit { status },
        (Step::CleanUp { status }, _) => Step::Exit { status },
        (Step::CheckRenderer, Outcome::RendererChecked { available }) => if !available {
            Step::Exit { status: RENDERER_MISSING }
        } else if config.no_clobber {
            Step::ConfirmOverwrite
        } else {
            Step::CreateWorkDir
        },
        (Step::ConfirmOverwrite, Outcome::Confirmed(overwrite)) => match overwrite {
            Overwrite::NothingToOverwrite => Step::CreateWorkDir,
            Overwrite::Answered { agreed } => if agreed {
                Step::CreateWorkDir
            } else {
                Step::Exit { status: GENERAL_FAILURE }
            },
            Overwrite::Unreadable => Step::Exit { status: GENERAL_FAILURE },
        },
        (Step::CreateWorkDir, Outcome::WorkDirCreated { created }) => if created {
            Step::WriteAssets
        } else {
            Step::Exit { status: GENERAL_FAILURE }
        },
        (Step::WriteAssets, Outcome::AssetsWritten { written }) => if written {
            Step::Build
        } else {
            Step::CleanUp { status: GENERAL_FAILURE }
        },
        (Step::Build, Outcome::Built(outcome)) => match outcome.status() {
            Ok(_) => mode_of(config),
            Err(code) => Step::CleanUp { status: code },
        },
        (Step::Serve, Outcome::ModeEnded(joined)) => Step::CleanUp {
            status: exit_code_of(task_result_of(joined)),
        },
        (Step::Watch, Outcome::ModeEnded(joined)) => Step::CleanUp {
            status: exit_code_of(task_result_of(joined)),
        },
        _ => if holds_work_dir(step) {
            Step::CleanUp { status: GENERAL_FAILURE }
        } else {
            Step::Exit { status: GENERAL_FAILURE }
        },
    }
}

/// The step a session begins with.
pub fn first_step() -> (step: Step)
    ensures
        step == Step::CheckRenderer,
{
    Step::CheckRenderer
}

/// Decides which step follows `step`, given how it went. An outcome that
/// belongs to another step counts as a general failure.
pub fn next_step(config: &Config, step: Step, outcome: Outcome) -> (next: Step)
    ensures
        next == step_after(config@, step, outcome),
{
    let fallback = match step {
        Step::WriteAssets | Step::Build | Step::Serve | Step::Watch => Step::CleanUp {
            status: GENERAL_FAILURE,
        },
        _ => Step::Exit { status: GENERAL_FAILURE },
    };
    match step {
        Step::Exit { status } => Step::Exit { status },
        Step::CleanUp { status } => Step::Exit { status },
        Step::CheckRenderer => match outcome {
            Outcome::RendererChecked { available } => {
                if !available {
                    Step::Exit { status: RENDERER_MISSING }
                } else if config.no_clobber {
                    Step::ConfirmOverwrite
                } else {
                    Step::CreateWorkDir
                }
            },
            _ => fallback,
        },
        Step::ConfirmOverwrite => match outcome {
            Outcome::Confirmed(Overwrite::NothingToOverwrite) => Step::CreateWorkDir,
            Outcome::Confirmed(Overwrite::Answered { agreed }) => {
                if agreed {
                    Step::CreateWorkDir
                } else {
                    Step::Exit { status: GENERAL_FAILURE }
                }
            },
            Outcome::Confirmed(Overwrite::Unreadable) => Step::Exit { status: GENERAL_FAILURE },
            _ => fallback,
        },
        Step::CreateWorkDir => match outcome {
            Outcome::WorkDirCreated { created } => {
                if created {
                    Step::WriteAssets
                } else {
                    Step::Exit { status: GENERAL_FAILURE }
                }
            },
            _ => fallback,
        },
        Step::WriteAssets => match outcome {
            Outcome::AssetsWritten { written } => {
                if written {
                    Step::Build
                } else {
                    Step::CleanUp { status: GENERAL_FAILURE }
                }
            },
            _ => fallback,
        },
        Step::Build => match outcome {
            Outcome::Built(built) => match built.exit_status() {
                Ok(_) => {
                    if config.serve {
                        Step::Serve
                    } else if config.watch {
                        Step::Watch
                    } else {
                        Step::CleanUp { status: SUCCESS }
                    }
                },
                Err(code) => Step::CleanUp { status: code },
            },
            _ => fallback,
        },
        Step::Serve | Step::Watch => match outcome {
            Outcome::ModeEnded(joined) => Step::CleanUp { status: exit_code(task_result(joined)) },
            _ => fallback,
        },
    }
}

/// The working directory is removed on every path to the exit: while it
/// exists, no step is followed by the exit, except its removal.
pub proof fn lemma_work_dir_is_always_removed(config: ConfigView, step: Step, outcome: Outcome)
    requires
        holds_work_dir(step),
        !(step is CleanUp),
    ensures
        holds_work_dir(step_after(config, step, outcome)),
{
}

/// Removing the working directory never changes the exit status, however the
/// removal went.
pub proof fn lemma_clean_up_keeps_the_status(config: ConfigView, status: i32, outcome: Outcome)
    ensures
        step_after(config, Step::CleanUp { status }, outcome) == (Step::Exit { status }),
{
}

/// The first build is unconditional: whatever the mode, a session that gets
/// as far as writing its assets builds next.
pub proof fn lemma_first_build_is_unconditional(config: ConfigView)
    ensures
        step_after(config, Step::WriteAssets, Outcome::AssetsWritten { written: true })
            == Step::Build,
{
}

/// A first build that fails ends the session with the build's own status,
/// whatever that status is.
pub proof fn lemma_failed_first_build_ends_the_session(config: ConfigView, code: i32)
    ensures
        step_after(config, Step::Build, Outcome::Built(RebuildOutcome::Failed(code))) == (
            Step::CleanUp { status: code }
        ),
{
}

/// A renderer that is not there ends the session at once, with the status for
/// a missing renderer.
pub proof fn lemma_missing_renderer_ends_the_session(config: ConfigView)
    ensures
        step_after(config, Step::CheckRenderer, Outcome::RendererChecked { available: false })
            == (Step::Exit { status: RENDERER_MISSING }),
{
}

} // verus!
