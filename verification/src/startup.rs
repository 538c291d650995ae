//! Decisions made while the application starts and when it restarts the
//! desktop shell: the elevation check, the single-instance check, the
//! initial locale, and the shell process to terminate.

use vstd::prelude::*;

verus! {

// ---------------------------------------------------------------------------
// Elevation
// ---------------------------------------------------------------------------

/// What the TrustedInstaller elevation check found.
#[derive(Debug, Clone, Copy, PartialEq, Eq, Structural)]
pub enum ElevationCheck {
    /// The process already runs as TrustedInstaller.
    TrustedInstaller,
    /// The process must be relaunched as TrustedInstaller.
    RequiresElevation,
    /// The check itself failed.
    CheckFailed,
}

/// Whether startup continues in this process.
#[derive(Debug, Clone, Copy, PartialEq, Eq, Structural)]
pub enum ElevationOutcome {
    /// Elevation criteria met; startup continues.
    Proceed,
    /// The process was relaunched elevated, or the check failed; this
    /// process ends.
    Terminate,
}

/// What to do before the outcome takes effect.
#[derive(Debug, Clone, Copy, PartialEq, Eq, Structural)]
pub enum ElevationAction {
    /// Nothing.
    Nothing,
    /// Relaunch as TrustedInstaller, reporting a failure to do so.
    Relaunch,
    /// Report that the check failed.
    ReportCheckFailure,
}

/// Decides how startup continues after the elevation check.
pub fn elevation_plan(check: ElevationCheck) -> (result: (ElevationOutcome, ElevationAction))
    ensures
        result == match check {
            ElevationCheck::TrustedInstaller => (ElevationOutcome::Proceed, ElevationAction::Nothing),
            ElevationCheck::RequiresElevation => (ElevationOutcome::Terminate, ElevationAction::Relaunch),
            ElevationCheck::CheckFailed => (ElevationOutcome::Terminate, ElevationAction::ReportCheckFailure),
        },
{
    match check {
        ElevationCheck::TrustedInstaller => (ElevationOutcome::Proceed, ElevationAction::Nothing),
        ElevationCheck::RequiresElevation => (ElevationOutcome::Terminate, ElevationAction::Relaunch),
        ElevationCheck::CheckFailed => (ElevationOutcome::Terminate, ElevationAction::ReportCheckFailure),
    }
}

// ---------------------------------------------------------------------------
// Single instance
// ---------------------------------------------------------------------------

/// The outcome of acquiring the single-instance mutex.
#[derive(Debug, Clone, Copy, PartialEq, Eq, Structural)]
pub enum InstanceOutcome {
    /// This is the first instance; it keeps the mutex.
    Primary,
    /// Another instance runs; it is signaled and this one ends.
    AlreadyRunning,
    /// The mutex could not be created.
    CreationFailed,
}

/// Classifies the result of creating the named mutex.
pub fn single_instance_outcome(mutex_created: bool, already_exists: bool) -> (result: InstanceOutcome)
    ensures
        result == if !mutex_created {
            InstanceOutcome::CreationFailed
        } else if already_exists {
            InstanceOutcome::AlreadyRunning
        } else {
            InstanceOutcome::Primary
        },
{
    if !mutex_created {
        InstanceOutcome::CreationFailed
    } else if already_exists {
        InstanceOutcome::AlreadyRunning
    } else {
        InstanceOutcome::Primary
    }
}

/// Whether the running instance can be signaled: only with a registered
/// (non-zero) message identifier.
pub fn should_signal_existing_instance(restore_message_id: u32) -> (result: bool)
    ensures
        result == (restore_message_id != 0),
{
    restore_message_id != 0
}

// ---------------------------------------------------------------------------
// Locale
// ---------------------------------------------------------------------------

/// `sys_locale::get_locale`: the system's BCP 47 locale, if it can be found.
/// The result depends on the machine; nothing is promised of it.
#[verifier::external_body]
fn system_locale() -> Option<String> {
    sys_locale::get_locale()
}

/// The locale to start with: the system locale, or `en-US` when it is
/// unknown.
pub fn initial_locale(system_locale: Option<String>) -> (result: String)
    ensures
        match system_locale {
            Some(locale) => result@ == locale@,
            None => result@ == "en-US"@,
        },
{
    match system_locale {
        Some(locale) => locale,
        None => "en-US".to_owned(),
    }
}

/// Queries the system locale and picks the locale to start with. The
/// system's answer depends on the machine; when it has none the result is
/// `en-US`.
pub fn initial_locale_from_system() -> (result: String) {
    initial_locale(system_locale())
}

// ---------------------------------------------------------------------------
// Desktop shell
// ---------------------------------------------------------------------------

/// Why the desktop shell could not be restarted.
#[derive(Debug, Clone, Copy, PartialEq, Eq, Structural)]
pub enum ShellError {
    /// No desktop shell window exists.
    ShellWindowNotFound,
    /// The shell window's process could not be determined.
    ShellProcessIdUnavailable,
    /// The shell process could not be opened for termination.
    OpenProcessFailed(u32),
    /// Terminating the shell process failed.
    TerminateFailed(u32),
}

/// The process owning the shell window, from `GetShellWindow` (whether a
/// window was found) and `GetWindowThreadProcessId` (thread and process id).
pub fn shell_process_id(shell_window_found: bool, thread_id: u32, process_id: u32) -> (result: Result<u32, ShellError>)
    ensures
        result == if !shell_window_found {
            Err(ShellError::ShellWindowNotFound)
        } else if thread_id == 0 || process_id == 0 {
            Err(ShellError::ShellProcessIdUnavailable)
        } else {
            Ok::<u32, ShellError>(process_id)
        },
{
    if !shell_window_found {
        return Err(ShellError::ShellWindowNotFound);
    }
    if thread_id == 0 || process_id == 0 {
        return Err(ShellError::ShellProcessIdUnavailable);
    }
    Ok(process_id)
}

/// The outcome of terminating the shell process `process_id`, from whether
/// it could be opened and whether termination succeeded.
pub fn shell_termination_outcome(process_id: u32, opened: bool, terminated: bool) -> (result: Result<(), ShellError>)
    ensures
        result == if !opened {
            Err(ShellError::OpenProcessFailed(process_id))
        } else if !terminated {
            Err(ShellError::TerminateFailed(process_id))
        } else {
            Ok::<(), ShellError>(())
        },
{
    if !opened {
        Err(ShellError::OpenProcessFailed(process_id))
    } else if !terminated {
        Err(ShellError::TerminateFailed(process_id))
    } else {
        Ok(())
    }
}

} // verus!
