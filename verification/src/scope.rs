//! The scoped use of the process's working directory.
//!
//! Artifact keys are relative, so an operation that reads or writes artifacts runs
//! with the documents root as the working directory. The working directory is
//! shared by the whole process, so it is borrowed: recorded, changed, and put
//! back on every way out. Changing directories is the caller's work. What is
//! decided here is what the caller does next, given how the last thing went.

use crate::error::{ErrorKind, ZkProofError};
use vstd::prelude::*;
use vstd::string::*;

verus! {

/// What the caller is asked to do.
#[derive(Debug)]
pub enum ScopeAction {
    /// Find out the current working directory.
    ReadCurrentDirectory,
    /// Make `path` the working directory.
    Enter { path: String },
    /// Run the operation.
    RunBody,
    /// Make `path`, the directory recorded at the start, the working directory again.
    Restore { path: String },
    /// Hand back what the operation returned.
    ReturnBodyResult,
    /// Fail, without running the operation.
    Fail { error: ZkProofError },
    /// Nothing: the scope is over.
    Nothing,
}

/// How the last thing that the caller was asked to do went.
#[derive(Debug)]
pub enum ScopeEvent {
    /// The current working directory is `path`.
    CurrentDirectory { path: String },
    /// The working directory has been changed as asked.
    Entered,
    /// The operation has returned, with a result or with a failure.
    BodyReturned,
    /// The working directory has been put back.
    Restored,
    /// What was asked could not be done; `cause` is the system's description.
    Failed { cause: String },
}

/// Where a scope stands.
#[derive(Debug)]
pub enum DirectoryScope {
    /// Nothing has been done; the operation wants `target` as its working directory.
    Start { target: String },
    /// The caller is finding out the working directory.
    ReadingCurrent { target: String },
    /// The caller is changing to the target; `previous` is where it was.
    Entering { target: String, previous: String },
    /// The operation is running in the target.
    Running { previous: String },
    /// The caller is changing back.
    Restoring,
    /// The scope is over.
    Over,
}

/// The mathematical content of a [`DirectoryScope`].
pub enum DirectoryScopeView {
    Start { target: Seq<char> },
    ReadingCurrent { target: Seq<char> },
    Entering { target: Seq<char>, previous: Seq<char> },
    Running { previous: Seq<char> },
    Restoring,
    Over,
}

impl View for DirectoryScope {
    type V = DirectoryScopeView;

    open spec fn view(&self) -> DirectoryScopeView {
        match self {
            DirectoryScope::Start { target } => DirectoryScopeView::Start { target: target@ },
            DirectoryScope::ReadingCurrent { target } => DirectoryScopeView::ReadingCurrent {
                target: target@,
            },
            DirectoryScope::Entering { target, previous } => DirectoryScopeView::Entering {
                target: target@,
                previous: previous@,
            },
            DirectoryScope::Running { previous } => DirectoryScopeView::Running {
                previous: previous@,
            },
            DirectoryScope::Restoring => DirectoryScopeView::Restoring,
            DirectoryScope::Over => DirectoryScopeView::Over,
        }
    }
}

/// The mathematical content of a [`ScopeAction`].
pub enum ScopeActionView {
    ReadCurrentDirectory,
    Enter { path: Seq<char> },
    RunBody,
    Restore { path: Seq<char> },
    ReturnBodyResult,
    Fail { kind: ErrorKind, message: Seq<char> },
    Nothing,
}

impl View for ScopeAction {
    type V = ScopeActionView;

    open spec fn view(&self) -> ScopeActionView {
        match self {
            ScopeAction::ReadCurrentDirectory => ScopeActionView::ReadCurrentDirectory,
            ScopeAction::Enter { path } => ScopeActionView::Enter { path: path@ },
            ScopeAction::RunBody => ScopeActionView::RunBody,
            ScopeAction::Restore { path } => ScopeActionView::Restore { path: path@ },
            ScopeAction::ReturnBodyResult => ScopeActionView::ReturnBodyResult,
            ScopeAction::Fail { error } => ScopeActionView::Fail {
                kind: error.spec_kind(),
                message: error.spec_message(),
            },
            ScopeAction::Nothing => ScopeActionView::Nothing,
        }
    }
}

/// The message of the failure that a target that cannot be entered is answered with.
pub open spec fn spec_enter_failure_message(target: Seq<char>, cause: Seq<char>) -> Seq<char> {
    "Failed to set working directory to '"@ + target + "': "@ + cause
}

/// The scope after `event`, and what the caller is asked to do next.
///
/// The working directory is read, then changed; only when that has succeeded is
/// the operation run, and whenever it has run the directory is put back before
/// its result is returned, whatever the operation returned and whether or not
/// putting it back succeeds. If the directory cannot be read or cannot be
/// changed, the scope fails with `IoError` at once: the operation is not run and
/// no further change of directory is asked for. Before the operation has run, an
/// event that does not answer what was asked ends the scope.
pub open spec fn spec_scope_step(
    scope: DirectoryScopeView,
    event: ScopeEvent,
) -> (DirectoryScopeView, ScopeActionView) {
    match (scope, event) {
        (DirectoryScopeView::ReadingCurrent { target }, ScopeEvent::CurrentDirectory { path }) => (
            DirectoryScopeView::Entering { target, previous: path@ },
            ScopeActionView::Enter { path: target },
        ),
        (DirectoryScopeView::ReadingCurrent { .. }, ScopeEvent::Failed { cause }) => (
            DirectoryScopeView::Over,
            ScopeActionView::Fail { kind: ErrorKind::IoError, message: cause@ },
        ),
        (DirectoryScopeView::Entering { previous, .. }, ScopeEvent::Entered) => (
            DirectoryScopeView::Running { previous },
            ScopeActionView::RunBody,
        ),
        (DirectoryScopeView::Entering { target, .. }, ScopeEvent::Failed { cause }) => (
            DirectoryScopeView::Over,
            ScopeActionView::Fail {
                kind: ErrorKind::IoError,
                message: spec_enter_failure_message(target, cause@),
            },
        ),
        (DirectoryScopeView::Running { previous }, _) => (
            DirectoryScopeView::Restoring,
            ScopeActionView::Restore { path: previous },
        ),
        (DirectoryScopeView::Restoring, _) => (
            DirectoryScopeView::Over,
            ScopeActionView::ReturnBodyResult,
        ),
        _ => (DirectoryScopeView::Over, ScopeActionView::Nothing),
    }
}

impl DirectoryScope {
    /// A scope for an operation that wants `target` as its working directory.
    pub fn new(target: String) -> (scope: DirectoryScope)
        ensures
            scope@ == (DirectoryScopeView::Start { target: target@ }),
    {
        DirectoryScope::Start { target }
    }

    /// Opens the scope: the first thing to do is to read the working directory.
    pub fn begin(&mut self) -> (action: ScopeAction)
        ensures
            match old(self)@ {
                DirectoryScopeView::Start { target } => final(self)@ == (
                DirectoryScopeView::ReadingCurrent { target }) && action@
                    == ScopeActionView::ReadCurrentDirectory,
                _ => final(self)@ == DirectoryScopeView::Over && action@
                    == ScopeActionView::Nothing,
            },
    {
        let mut scope = DirectoryScope::Over;
        core::mem::swap(self, &mut scope);
        match scope {
            DirectoryScope::Start { target } => {
                *self = DirectoryScope::ReadingCurrent { target };
                ScopeAction::ReadCurrentDirectory
            },
            _ => ScopeAction::Nothing,
        }
    }
}

/// Takes the scope one step further: given how the last thing went, says what to
/// do next. See [`spec_scope_step`].
pub fn with_working_dir(scope: &mut DirectoryScope, event: ScopeEvent) -> (action: ScopeAction)
    ensures
        (final(scope)@, action@) == spec_scope_step(old(scope)@, event),
{
    let mut current = DirectoryScope::Over;
    core::mem::swap(scope, &mut current);
    match current {
        DirectoryScope::ReadingCurrent { target } => match event {
            ScopeEvent::CurrentDirectory { path } => {
                let enter = target.clone();
                *scope = DirectoryScope::Entering { target, previous: path };
                ScopeAction::Enter { path: enter }
            },
            ScopeEvent::Failed { cause } => ScopeAction::Fail {
                error: ZkProofError::from_io_error(cause),
            },
            _ => ScopeAction::Nothing,
        },
        DirectoryScope::Entering { target, previous } => match event {
            ScopeEvent::Entered => {
                *scope = DirectoryScope::Running { previous };
                ScopeAction::RunBody
            },
            ScopeEvent::Failed { cause } => ScopeAction::Fail {
                error: ZkProofError::working_directory_failure(target.as_str(), cause.as_str()),
            },
            _ => ScopeAction::Nothing,
        },
        DirectoryScope::Running { previous } => {
            *scope = DirectoryScope::Restoring;
            ScopeAction::Restore { path: previous }
        },
        DirectoryScope::Restoring => ScopeAction::ReturnBodyResult,
        _ => ScopeAction::Nothing,
    }
}

/// The scope after a sequence of events, from the moment it was opened, and the
/// actions that the caller was asked for along the way, the first being to read
/// the working directory.
pub open spec fn spec_scope_run(
    target: Seq<char>,
    events: Seq<ScopeEvent>,
) -> (DirectoryScopeView, Seq<ScopeActionView>)
    decreases events.len(),
{
    if events.len() == 0 {
        (DirectoryScopeView::ReadingCurrent { target }, seq![ScopeActionView::ReadCurrentDirectory])
    } else {
        let (scope, actions) = spec_scope_run(target, events.drop_last());
        let (next, action) = spec_scope_step(scope, events.last());
        (next, actions.push(action))
    }
}

/// What holds of a scope and the actions asked for so far.
pub open spec fn spec_scope_invariant(
    target: Seq<char>,
    scope: DirectoryScopeView,
    actions: Seq<ScopeActionView>,
) -> bool {
    let last = actions.last();
    &&& actions.len() >= 1
    &&& forall|i: int|
        0 <= i < actions.len() - 1 && (#[trigger] actions[i]) is RunBody ==> actions[i + 1]
            is Restore
    &&& forall|i: int|
        0 <= i < actions.len() - 1 && ((#[trigger] actions[i]) is Fail || actions[i] is Nothing)
            ==> actions[i + 1] is Nothing
    &&& forall|i: int|
        0 <= i < actions.len() && (#[trigger] actions[i]) is Enter ==> actions[i]->Enter_path
            == target
    &&& match scope {
        DirectoryScopeView::Start { .. } => false,
        DirectoryScopeView::ReadingCurrent { target: wanted } => wanted == target && last
            is ReadCurrentDirectory,
        DirectoryScopeView::Entering { target: wanted, .. } => wanted == target && last is Enter,
        DirectoryScopeView::Running { .. } => last is RunBody,
        DirectoryScopeView::Restoring => last is Restore,
        DirectoryScopeView::Over => last is Fail || last is Nothing || last is ReturnBodyResult,
    }
}

/// Working-directory restoration. Whatever the caller reports, once the
/// operation has been run the next thing asked for is to put the working
/// directory back; once the scope has failed, nothing more is asked for, so the
/// operation is not run and the working directory is not changed; and the only
/// directory ever entered is the target.
pub proof fn law_scope_restores(target: Seq<char>, events: Seq<ScopeEvent>)
    ensures
        spec_scope_invariant(
            target,
            spec_scope_run(target, events).0,
            spec_scope_run(target, events).1,
        ),
    decreases events.len(),
{
    if events.len() > 0 {
        law_scope_restores(target, events.drop_last());
        let (scope, actions) = spec_scope_run(target, events.drop_last());
        let (next, action) = spec_scope_step(scope, events.last());
        let longer = actions.push(action);
        assert(longer.last() == action);
        assert(forall|i: int| 0 <= i < actions.len() ==> longer[i] == actions[i]);
    }
}

/// A target that cannot be entered. When the attempt to enter the target fails,
/// the scope fails with `IoError` and the message `Failed to set working
/// directory to '<target>': <cause>`, and it asked for exactly one change of
/// directory, the one that failed: the working directory is what it was.
pub proof fn law_failed_enter(target: Seq<char>, previous: String, cause: String)
    ensures
        ({
            let events = seq![
                ScopeEvent::CurrentDirectory { path: previous },
                ScopeEvent::Failed { cause },
            ];
            let (scope, actions) = spec_scope_run(target, events);
            &&& scope == DirectoryScopeView::Over
            &&& actions == seq![
                ScopeActionView::ReadCurrentDirectory,
                ScopeActionView::Enter { path: target },
                ScopeActionView::Fail {
                    kind: ErrorKind::IoError,
                    message: spec_enter_failure_message(target, cause@),
                },
            ]
        }),
{
    let first = ScopeEvent::CurrentDirectory { path: previous };
    let second = ScopeEvent::Failed { cause };
    let events = seq![first, second];
    assert(events.drop_last() =~= seq![first]);
    assert(seq![first].drop_last() =~= Seq::<ScopeEvent>::empty());
    assert(spec_scope_run(target, Seq::<ScopeEvent>::empty()).1 =~= seq![
        ScopeActionView::ReadCurrentDirectory,
    ]);
    let one = spec_scope_run(target, seq![first]);
    assert(one.1 =~= seq![
        ScopeActionView::ReadCurrentDirectory,
        ScopeActionView::Enter { path: target },
    ]);
    let two = spec_scope_run(target, events);
    assert(two.1 =~= seq![
        ScopeActionView::ReadCurrentDirectory,
        ScopeActionView::Enter { path: target },
        ScopeActionView::Fail {
            kind: ErrorKind::IoError,
            message: spec_enter_failure_message(target, cause@),
        },
    ]);
}

} // verus!
