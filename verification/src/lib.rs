//! A scoped guard for the process-wide current working directory.
//!
//! The working directory is a single global value per process, yet callers
//! want to treat a temporary change of it as a scoped, stack-like resource:
//! capture the old value, move to a new one, and restore the old value when
//! the scope ends, on every exit path. This crate verifies that protocol.
//!
//! The OS itself is outside the crate: the host reads and sets the working
//! directory and hands the outcomes of those calls in as plain values. The
//! crate decides, with a proved contract, what each outcome means — whether
//! a guard comes to exist, which directory it is obliged to restore, and how
//! a failed restoration is reported.
//!
//! Construction follows the capture-then-mutate protocol in two phases:
//! [`ChangeWorkingDirectory::change`] turns the outcome of reading the
//! current directory into either a [`PendingChange`] (the request to move to
//! the target) or a [`ChangeDirError::CaptureFailure`]; the host performs the
//! move and [`PendingChange::complete`] turns its outcome into either a live
//! guard or a [`ChangeDirError::TransitionFailure`]. A failed construction
//! never produces a guard, so no restore obligation exists for a change that
//! did not happen.
//!
//! Release is a single one-way step: [`ChangeWorkingDirectory::release`]
//! consumes the guard, so each guard settles its restore obligation at most
//! once. Under the default best-effort policy a failed restoration becomes a
//! [`RestoreFailure`] diagnostic to report, never a panic: release runs
//! during teardown, where a fresh failure could mask one already in flight.

use vstd::prelude::*;

verus! {

/// Why a change of working directory failed. No guard exists in either case.
#[derive(Debug)]
pub enum ChangeDirError {
    /// The current working directory could not be read before mutating it
    /// (capture, the first step). Nothing was changed. Holds the message of
    /// the underlying OS error.
    CaptureFailure(String),
    /// The working directory could not be set to the requested target
    /// (transition, the second step). The OS set call is atomic, so the
    /// working directory is unchanged. Holds the message of the underlying
    /// OS error.
    TransitionFailure(String),
}

impl ChangeDirError {
    /// The message of the underlying OS error.
    pub open spec fn message_spec(&self) -> Seq<char> {
        match self {
            ChangeDirError::CaptureFailure(m) => m@,
            ChangeDirError::TransitionFailure(m) => m@,
        }
    }

    /// The message of the underlying OS error.
    pub fn message(&self) -> (r: &String)
        ensures
            r@ == self.message_spec(),
    {
        match self {
            ChangeDirError::CaptureFailure(m) => m,
            ChangeDirError::TransitionFailure(m) => m,
        }
    }
}

/// A capture that succeeded, awaiting the move to the target directory.
///
/// Holds the captured previous directory and the requested target. The host
/// must now attempt exactly one OS set call to [`Self::target_directory`] and
/// hand the outcome to [`Self::complete`].
#[derive(Debug)]
pub struct PendingChange {
    previous_directory: String,
    target_directory: String,
}

impl PendingChange {
    /// The directory that was current when the capture was made.
    pub closed spec fn previous(&self) -> Seq<char> {
        self.previous_directory@
    }

    /// The directory the working directory is to be set to.
    pub closed spec fn target(&self) -> Seq<char> {
        self.target_directory@
    }

    /// The directory the host must set the working directory to: the one
    /// action this pending change requests.
    pub fn target_directory(&self) -> (r: &String)
        ensures
            r@ == self.target(),
    {
        &self.target_directory
    }

    /// Finish construction from the outcome of the OS set call on
    /// [`Self::target_directory`].
    ///
    /// On success the guard exists and is obliged to restore exactly the
    /// directory captured before the move. On failure no guard exists: the
    /// OS set call is atomic, so the working directory still holds the
    /// captured value and there is nothing to restore.
    pub fn complete(self, transition_outcome: Result<(), String>) -> (r: Result<
        ChangeWorkingDirectory,
        ChangeDirError,
    >)
        ensures
            match transition_outcome {
                Ok(()) => r matches Ok(guard) && guard@ == self.previous(),
                Err(m) => (r matches Err(e) && e matches ChangeDirError::TransitionFailure(em)
                    && em@ == m@),
            },
    {
        match transition_outcome {
            Ok(()) => Ok(
                ChangeWorkingDirectory { previous_directory: self.previous_directory },
            ),
            Err(m) => Err(ChangeDirError::TransitionFailure(m)),
        }
    }
}

/// A live guard: the obligation to restore one previously captured working
/// directory, settled exactly once, when the guard's scope ends.
///
/// Its view is the captured directory. The captured value is a snapshot:
/// nothing re-reads or re-validates it after construction, and no operation
/// of another guard can alter it, so nested guards released in reverse order
/// of creation unwind a chain of changes step by step.
#[derive(Debug)]
pub struct ChangeWorkingDirectory {
    previous_directory: String,
}

impl View for ChangeWorkingDirectory {
    type V = Seq<char>;

    /// The directory captured at construction, which release restores.
    closed spec fn view(&self) -> Seq<char> {
        self.previous_directory@
    }
}

impl ChangeWorkingDirectory {
    /// Begin the capture-then-mutate protocol towards `target_directory`,
    /// from the outcome of reading the current working directory.
    ///
    /// If the capture succeeded, the result is the pending change that asks
    /// the host to move to `target_directory`, with the read directory held
    /// for eventual restoration. If the capture failed, the result is a
    /// [`ChangeDirError::CaptureFailure`] and the protocol stops: no move is
    /// requested and no guard is created, so the working directory is left
    /// exactly as it was.
    ///
    /// The typed error is the default, fallible mode of construction. The
    /// stricter alternate — treating a failed capture or transition as fatal
    /// to the whole program — needs nothing from this protocol: no guard
    /// exists on failure and nothing is left to undo, so a host wanting that
    /// mode simply aborts on the returned error.
    pub fn change(target_directory: String, capture_outcome: Result<String, String>) -> (r:
        Result<PendingChange, ChangeDirError>)
        ensures
            match capture_outcome {
                Ok(prev) => (r matches Ok(pending) && pending.previous() == prev@
                    && pending.target() == target_directory@),
                Err(m) => (r matches Err(e) && e matches ChangeDirError::CaptureFailure(em)
                    && em@ == m@),
            },
    {
        match capture_outcome {
            Ok(prev) => Ok(
                PendingChange { previous_directory: prev, target_directory },
            ),
            Err(m) => Err(ChangeDirError::CaptureFailure(m)),
        }
    }

    /// The directory this guard is obliged to restore: the one action its
    /// release requests of the host.
    pub fn previous_directory(&self) -> (r: &String)
        ensures
            r@ == self@,
    {
        &self.previous_directory
    }

    /// Settle the restore obligation from the outcome of the OS set call on
    /// [`Self::previous_directory`], under the chosen policy.
    ///
    /// Consumes the guard: a guard settles its obligation at most once, and
    /// after this call it no longer exists. A successful restoration needs
    /// nothing further. A failed one becomes, under [`ReleasePolicy::BestEffort`],
    /// a diagnostic to report — release runs during teardown, where raising a
    /// fresh failure could mask one already in flight, so this function never
    /// panics and asks for no retry — and under [`ReleasePolicy::Fatal`], a
    /// request to abort. Either way the diagnostic names the directory that
    /// could not be restored and the OS error.
    pub fn release(self, restore_outcome: Result<(), String>, policy: ReleasePolicy) -> (r:
        ReleaseAction)
        ensures
            match restore_outcome {
                Ok(()) => r is Restored,
                Err(m) => {
                    &&& policy is BestEffort ==> (r matches ReleaseAction::EmitDiagnostic(f)
                        && f.previous_directory@ == self@ && f.message@ == m@)
                    &&& policy is Fatal ==> (r matches ReleaseAction::Abort(f)
                        && f.previous_directory@ == self@ && f.message@ == m@)
                },
            },
    {
        match restore_outcome {
            Ok(()) => ReleaseAction::Restored,
            Err(m) => {
                let failure = RestoreFailure {
                    previous_directory: self.previous_directory,
                    message: m,
                };
                match policy {
                    ReleasePolicy::BestEffort => ReleaseAction::EmitDiagnostic(failure),
                    ReleasePolicy::Fatal => ReleaseAction::Abort(failure),
                }
            },
        }
    }
}

/// How a failed restoration is handled when a guard is released.
#[derive(Debug)]
pub enum ReleasePolicy {
    /// Report the failure as a diagnostic and continue. The default: release
    /// runs during teardown, and must not itself crash the process or mask a
    /// failure already propagating.
    BestEffort,
    /// Treat a failed restoration as unrecoverable. Offered only for callers
    /// that need parity with a stricter contract.
    Fatal,
}

/// The working directory could not be set back to the previously captured
/// value during release. The guard had already served its purpose; only the
/// cleanup step failed, and the working directory is left at the changed
/// value, not the original.
#[derive(Debug)]
pub struct RestoreFailure {
    /// The directory that could not be restored.
    pub previous_directory: String,
    /// The message of the underlying OS error.
    pub message: String,
}

/// What the host is to do after a guard settled its restore obligation.
#[derive(Debug)]
pub enum ReleaseAction {
    /// The restoration succeeded; nothing remains to do.
    Restored,
    /// Best-effort policy: report this diagnostic and continue.
    EmitDiagnostic(RestoreFailure),
    /// Fatal policy: abort, reporting this diagnostic.
    Abort(RestoreFailure),
}

/// Model of the one OS primitive this crate's protocol mutates. A set call
/// on the working directory is atomic: either it fully succeeds, after which
/// the working directory is the target, or it fails and the working
/// directory is unchanged.
pub open spec fn cwd_after_set(cwd: Seq<char>, target: Seq<char>, succeeded: bool) -> Seq<char> {
    if succeeded {
        target
    } else {
        cwd
    }
}

/// Round trip: for every starting directory `s` and target `t`, a guard that
/// captured `s` — as `change` and `complete` ensure when the capture read
/// `s` and the transition succeeded — restores the working directory to
/// exactly `s` when its release's set call succeeds, whatever directory `t`
/// it had moved to.
pub proof fn lemma_round_trip(s: Seq<char>, t: Seq<char>, guard: ChangeWorkingDirectory)
    requires
        guard@ == s,
    ensures
        cwd_after_set(cwd_after_set(s, t, true), guard@, true) == s,
{
}

/// Nesting: for a chain `s` to `a` to `b` — an outer guard that captured `s`
/// while moving to `a`, then an inner guard that captured `a` while moving
/// to `b` — releasing the inner guard and then the outer one, the reverse of
/// their order of creation, restores first `a` and then `s`. Each guard
/// holds its own captured value, so the inner guard's release leaves the
/// outer guard's obligation exactly as it was.
pub proof fn lemma_nested_release(
    s: Seq<char>,
    a: Seq<char>,
    b: Seq<char>,
    outer: ChangeWorkingDirectory,
    inner: ChangeWorkingDirectory,
)
    requires
        outer@ == s,
        inner@ == a,
    ensures
        cwd_after_set(b, inner@, true) == a,
        cwd_after_set(cwd_after_set(b, inner@, true), outer@, true) == s,
{
}

/// A failed change leaves the working directory untouched: when the
/// transition to `t` fails, the atomic set call has left the working
/// directory holding `s` — and when the capture itself fails, `change`
/// requests no set call at all, so nothing was attempted in the first place.
pub proof fn lemma_failed_change_leaves_cwd(s: Seq<char>, t: Seq<char>)
    ensures
        cwd_after_set(s, t, false) == s,
{
}

} // verus!
