//! The bootstrap script, its two-state lifecycle, and the fate of the
//! process when the host reports a failure.

use vstd::prelude::*;
use crate::plugins::{Plugin, plugin_order, capability_set};

verus! {

/// One step of the bootstrap script, performed by the driver against the
/// external application host.
#[derive(Clone, Copy, Debug, PartialEq, Eq, Structural)]
pub enum BootStep {
    /// Register one capability plugin on the application builder.
    Register(Plugin),
    /// Install the one-time setup callback.
    InstallSetup,
    /// Hand control to the host's blocking run loop.
    StartRunLoop,
}

/// Whether the program was compiled for debugging or for release. The only
/// behavior that depends on it is the setup callback's.
#[derive(Clone, Copy, Debug, PartialEq, Eq, Structural)]
pub enum BuildKind {
    Debug,
    Release,
}

/// The whole bootstrap script: register every plugin in the fixed order,
/// install the setup callback, start the run loop. The script is the same
/// in every build configuration; only the installed callback's behavior
/// differs (see `setup`).
pub open spec fn boot_script(build: BuildKind) -> Seq<BootStep> {
    seq![
        BootStep::Register(Plugin::Sql),
        BootStep::Register(Plugin::Store),
        BootStep::Register(Plugin::Updater),
        BootStep::Register(Plugin::Http),
        BootStep::Register(Plugin::Fs),
        BootStep::Register(Plugin::Dialog),
        BootStep::Register(Plugin::Process),
        BootStep::InstallSetup,
        BootStep::StartRunLoop,
    ]
}

/// The registration prefix of the script follows the fixed plugin order.
pub proof fn lemma_script_follows_plugin_order(build: BuildKind)
    ensures
        boot_script(build).len() == plugin_order().len() + 2,
        forall|i: int|
            0 <= i < plugin_order().len() ==> boot_script(build)[i] == BootStep::Register(
                plugin_order()[i],
            ),
{
}

/// The lifecycle this layer exposes: nothing stands between "not started"
/// and "running inside the host's loop".
#[derive(Clone, Copy, Debug, PartialEq, Eq, Structural)]
pub enum Lifecycle {
    Uninitialized,
    Running,
}

/// Walks the bootstrap script step by step for the driver, which performs
/// each step against the external host.
pub struct Bootstrap {
    build: BuildKind,
    next: usize,
}

impl Bootstrap {
    /// Which build configuration this bootstrap serves.
    pub closed spec fn spec_build(&self) -> BuildKind {
        self.build
    }

    /// The prefix of the script already handed to the driver.
    pub closed spec fn performed(&self) -> Seq<BootStep> {
        boot_script(self.build).take(self.next as int)
    }

    /// The step counter never runs past the script.
    pub closed spec fn wf(&self) -> bool {
        self.next <= boot_script(self.build).len()
    }

    /// The two-state lifecycle: `Running` exactly when the whole script,
    /// run-loop start included, has been handed out.
    pub open spec fn lifecycle(&self) -> Lifecycle {
        if self.performed().len() == boot_script(self.spec_build()).len() {
            Lifecycle::Running
        } else {
            Lifecycle::Uninitialized
        }
    }

    /// A fresh bootstrap: nothing performed, lifecycle `Uninitialized`.
    pub fn new(build: BuildKind) -> (b: Self)
        ensures
            b.wf(),
            b.spec_build() == build,
            b.performed() == Seq::<BootStep>::empty(),
            b.lifecycle() == Lifecycle::Uninitialized,
    {
        let b = Bootstrap { build, next: 0 };
        proof {
            assert(b.performed() =~= Seq::<BootStep>::empty());
        }
        b
    }

    /// The current lifecycle state, for the driver.
    pub fn lifecycle_now(&self) -> (l: Lifecycle)
        requires
            self.wf(),
        ensures
            l == self.lifecycle(),
    {
        if self.next == 9 {
            Lifecycle::Running
        } else {
            Lifecycle::Uninitialized
        }
    }

    /// Hands out the next step of the script, or `None` once the run-loop
    /// start has been handed out and the lifecycle is `Running`.
    pub fn next_step(&mut self) -> (s: Option<BootStep>)
        requires
            old(self).wf(),
        ensures
            final(self).wf(),
            final(self).spec_build() == old(self).spec_build(),
            match s {
                Some(step) => {
                    &&& old(self).lifecycle() == Lifecycle::Uninitialized
                    &&& old(self).performed().len() < boot_script(old(self).spec_build()).len()
                    &&& step == boot_script(old(self).spec_build())[old(self).performed().len() as int]
                    &&& final(self).performed() == old(self).performed().push(step)
                },
                None => {
                    &&& old(self).lifecycle() == Lifecycle::Running
                    &&& *final(self) == *old(self)
                },
            },
    {
        let s: Option<BootStep> = match self.next {
            0 => Some(BootStep::Register(Plugin::Sql)),
            1 => Some(BootStep::Register(Plugin::Store)),
            2 => Some(BootStep::Register(Plugin::Updater)),
            3 => Some(BootStep::Register(Plugin::Http)),
            4 => Some(BootStep::Register(Plugin::Fs)),
            5 => Some(BootStep::Register(Plugin::Dialog)),
            6 => Some(BootStep::Register(Plugin::Process)),
            7 => Some(BootStep::InstallSetup),
            8 => Some(BootStep::StartRunLoop),
            _ => None,
        };
        if s.is_some() {
            self.next = self.next + 1;
            proof {
                assert(self.performed() =~= boot_script(self.build).take(
                    self.next - 1,
                ).push(boot_script(self.build)[self.next - 1]));
            }
        }
        s
    }
}

/// The lifecycle has no observable intermediate state: a well-formed
/// bootstrap is `Running` exactly when every step of the script has been
/// performed, and `Uninitialized` in every other state.
pub proof fn lemma_no_partial_lifecycle(b: Bootstrap)
    requires
        b.wf(),
    ensures
        b.lifecycle() == Lifecycle::Running <==> b.performed() == boot_script(b.spec_build()),
        b.lifecycle() == Lifecycle::Running || b.lifecycle() == Lifecycle::Uninitialized,
{
    if b.performed().len() == boot_script(b.spec_build()).len() {
        assert(b.performed() =~= boot_script(b.spec_build()));
    }
}

/// Registration is complete and precedes the run-loop start, in every build
/// configuration: the script registers exactly the declared capability set,
/// each capability once, the run-loop start is its one last step, and the
/// script does not depend on the build configuration.
pub proof fn lemma_registration_before_run_loop(build: BuildKind)
    ensures
        forall|p: Plugin|
            capability_set().contains(p) <==> boot_script(build).contains(BootStep::Register(p)),
        forall|p: Plugin, i: int, j: int|
            0 <= i < j < boot_script(build).len() && boot_script(build)[i] == BootStep::Register(p)
                ==> boot_script(build)[j] != BootStep::Register(p),
        boot_script(build).last() == BootStep::StartRunLoop,
        forall|i: int|
            0 <= i < boot_script(build).len() - 1 ==> boot_script(build)[i]
                != BootStep::StartRunLoop,
        forall|b1: BuildKind, b2: BuildKind| boot_script(b1) == boot_script(b2),
{
    assert forall|p: Plugin|
        capability_set().contains(p) <==> boot_script(build).contains(
            BootStep::Register(p),
        ) by {
        if capability_set().contains(p) {
            match p {
                Plugin::Sql => assert(boot_script(build)[0] == BootStep::Register(p)),
                Plugin::Store => assert(boot_script(build)[1] == BootStep::Register(p)),
                Plugin::Updater => assert(boot_script(build)[2] == BootStep::Register(p)),
                Plugin::Http => assert(boot_script(build)[3] == BootStep::Register(p)),
                Plugin::Fs => assert(boot_script(build)[4] == BootStep::Register(p)),
                Plugin::Dialog => assert(boot_script(build)[5] == BootStep::Register(p)),
                Plugin::Process => assert(boot_script(build)[6] == BootStep::Register(p)),
            }
        }
    }
    assert forall|b1: BuildKind, b2: BuildKind| boot_script(b1) == boot_script(b2) by {
        assert(boot_script(b1) =~= boot_script(b2));
    }
}

/// What the driver observed when the host handed control back: either the
/// run loop exited on its own terms, or building or running the
/// application failed.
#[derive(Clone, Copy, Debug, PartialEq, Eq, Structural)]
pub enum RunReport {
    Exited,
    Failed,
}

/// How the process ends once the host has reported.
#[derive(Clone, Copy, Debug, PartialEq, Eq, Structural)]
pub enum ProcessEnd {
    /// The run loop exited; control returns normally.
    Exited,
    /// Startup or the run loop failed; the process is terminated at once
    /// with the fixed failure message, leaving no partial state behind.
    AbortedWithMessage,
}

/// The fixed diagnostic printed when startup or the run loop fails.
pub open spec fn failure_message() -> Seq<char> {
    "error while running tauri application"@
}

/// Exec copy of the fixed failure message, for the driver to crash with.
pub fn startup_failure_message() -> (s: &'static str)
    ensures
        s@ == failure_message(),
{
    "error while running tauri application"
}

/// Every failure the host reports is fatal, and only a failure is: there is
/// no retry, no recovery, and no partially-initialized state for anyone to
/// observe afterwards.
pub fn conclude(report: RunReport) -> (end: ProcessEnd)
    ensures
        end == ProcessEnd::Exited <==> report == RunReport::Exited,
        end == ProcessEnd::AbortedWithMessage <==> report == RunReport::Failed,
{
    match report {
        RunReport::Exited => ProcessEnd::Exited,
        RunReport::Failed => ProcessEnd::AbortedWithMessage,
    }
}

} // verus!
