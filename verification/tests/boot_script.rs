use shell_bootstrap::bootstrap::{BootStep, Bootstrap, BuildKind, Lifecycle};
use shell_bootstrap::plugins::{registration_order, Plugin};

fn full_script(build: BuildKind) -> Vec<BootStep> {
    let mut bootstrap = Bootstrap::new(build);
    let mut steps: Vec<BootStep> = Vec::new();
    while let Some(step) = bootstrap.next_step() {
        steps.push(step);
    }
    assert_eq!(bootstrap.lifecycle_now(), Lifecycle::Running);
    steps
}

#[test]
fn registration_order_is_the_fixed_one() {
    let v = registration_order();
    assert_eq!(
        v,
        vec![
            Plugin::Sql,
            Plugin::Store,
            Plugin::Updater,
            Plugin::Http,
            Plugin::Fs,
            Plugin::Dialog,
            Plugin::Process,
        ]
    );
}

#[test]
fn script_registers_every_capability_before_the_run_loop() {
    for build in [BuildKind::Debug, BuildKind::Release] {
        let steps = full_script(build);
        assert_eq!(steps.len(), 9);
        let expected = vec![
            BootStep::Register(Plugin::Sql),
            BootStep::Register(Plugin::Store),
            BootStep::Register(Plugin::Updater),
            BootStep::Register(Plugin::Http),
            BootStep::Register(Plugin::Fs),
            BootStep::Register(Plugin::Dialog),
            BootStep::Register(Plugin::Process),
            BootStep::InstallSetup,
            BootStep::StartRunLoop,
        ];
        assert_eq!(steps, expected);
        let start_at = steps
            .iter()
            .position(|s| *s == BootStep::StartRunLoop)
            .unwrap();
        for (i, step) in steps.iter().enumerate() {
            if matches!(step, BootStep::Register(_)) {
                assert!(i < start_at);
            }
        }
    }
}

#[test]
fn script_is_the_same_in_debug_and_release() {
    assert_eq!(full_script(BuildKind::Debug), full_script(BuildKind::Release));
}

#[test]
fn bootstrap_starts_uninitialized_and_stops_handing_out_steps() {
    let mut bootstrap = Bootstrap::new(BuildKind::Debug);
    assert_eq!(bootstrap.lifecycle_now(), Lifecycle::Uninitialized);
    for _ in 0..9 {
        assert!(bootstrap.next_step().is_some());
    }
    assert!(bootstrap.next_step().is_none());
    assert!(bootstrap.next_step().is_none());
    assert_eq!(bootstrap.lifecycle_now(), Lifecycle::Running);
}
