//! The one-time setup callback: what it decides in each build
//! configuration. Only a debug build looks for the main window and opens
//! the developer-inspection panel on it; a release build's callback does
//! nothing at all.

use vstd::prelude::*;
use crate::bootstrap::BuildKind;

verus! {

/// The well-known identifier of the application's main window.
pub open spec fn main_window_label() -> Seq<char> {
    "main"@
}

/// Exec copy of the main window's label, for the driver's window lookup.
pub fn main_window_label_str() -> (s: &'static str)
    ensures
        s@ == main_window_label(),
{
    "main"
}

/// How the setup callback ends.
#[derive(Clone, Copy, Debug, PartialEq, Eq, Structural)]
pub enum SetupOutcome {
    /// Debug build, main window present: the developer-inspection panel is
    /// opened on it and setup succeeds.
    DevtoolsOpened,
    /// Debug build, main window missing: setup fails at once and startup
    /// aborts.
    StartupAborted,
    /// Release build: the callback does nothing and succeeds.
    NothingToDo,
}

/// The callback's outcome as a function of the build configuration and of
/// whether the main window exists at setup time. In a release build the
/// window's existence is irrelevant, because nothing ever asks for it.
pub open spec fn setup_outcome(build: BuildKind, main_window_found: bool) -> SetupOutcome {
    match build {
        BuildKind::Debug => if main_window_found {
            SetupOutcome::DevtoolsOpened
        } else {
            SetupOutcome::StartupAborted
        },
        BuildKind::Release => SetupOutcome::NothingToDo,
    }
}

/// First decision of the callback: which window label to look up, if any.
/// A debug build asks for the main window; a release build asks for no
/// window at all, so the driver never performs a lookup there.
pub fn window_probe(build: BuildKind) -> (probe: Option<&'static str>)
    ensures
        build == BuildKind::Debug ==> (probe matches Some(label) && label@ == main_window_label()),
        build == BuildKind::Release ==> probe is None,
{
    match build {
        BuildKind::Debug => Some(main_window_label_str()),
        BuildKind::Release => None,
    }
}

/// Second decision, reached only in a debug build, once the lookup has
/// reported whether the main window exists: open the panel on it, or fail
/// setup and with it startup.
pub fn devtools_decision(main_window_found: bool) -> (o: SetupOutcome)
    ensures
        o == setup_outcome(BuildKind::Debug, main_window_found),
{
    if main_window_found {
        SetupOutcome::DevtoolsOpened
    } else {
        SetupOutcome::StartupAborted
    }
}

/// A release build's setup is inert: whatever windows exist, it opens no
/// panel and aborts nothing.
pub proof fn lemma_release_setup_inert()
    ensures
        forall|found: bool| setup_outcome(BuildKind::Release, found) == SetupOutcome::NothingToDo,
{
}

/// A debug build's setup decides both ways: the panel is opened exactly
/// when the main window exists, and startup aborts exactly when it does
/// not.
pub proof fn lemma_debug_setup_decides()
    ensures
        forall|found: bool|
            setup_outcome(BuildKind::Debug, found) == SetupOutcome::DevtoolsOpened <==> found,
        forall|found: bool|
            setup_outcome(BuildKind::Debug, found) == SetupOutcome::StartupAborted <==> !found,
{
}

} // verus!
