use safe_shell::{
    capability_modules, get_safe_area_insets, Capability, Phase, Platform, SafeAreaInsets,
    Startup, StartupAction, StartupFailure,
};

const ALL: [Platform; 5] = [
    Platform::Linux,
    Platform::Windows,
    Platform::MacOs,
    Platform::Android,
    Platform::Ios,
];

fn fallback() -> SafeAreaInsets {
    SafeAreaInsets { top: 24, bottom: 24, left: 0, right: 0 }
}

#[test]
fn core_modules_once_each_in_order() {
    for p in ALL {
        let m = capability_modules(p);
        assert_eq!(&m[..3], &[Capability::Storage, Capability::Network, Capability::OsInfo]);
        for c in [Capability::Storage, Capability::Network, Capability::OsInfo] {
            assert_eq!(m.iter().filter(|x| **x == c).count(), 1);
        }
    }
}

#[test]
fn desktop_modules_exact() {
    for p in [Platform::Linux, Platform::Windows, Platform::MacOs] {
        assert_eq!(
            capability_modules(p),
            vec![Capability::Storage, Capability::Network, Capability::OsInfo]
        );
        assert!(!p.is_mobile());
    }
}

#[test]
fn mobile_modules_exact() {
    for p in [Platform::Android, Platform::Ios] {
        assert_eq!(
            capability_modules(p),
            vec![
                Capability::Storage,
                Capability::Network,
                Capability::OsInfo,
                Capability::EdgeToEdge
            ]
        );
        assert!(p.is_mobile());
    }
}

#[test]
fn edge_to_edge_only_on_mobile() {
    for p in ALL {
        assert_eq!(capability_modules(p).contains(&Capability::EdgeToEdge), p.is_mobile());
    }
}

#[test]
fn insets_fallback_fields() {
    let r = get_safe_area_insets(());
    assert_eq!(r.top, 24);
    assert_eq!(r.bottom, 24);
    assert_eq!(r.left, 0);
    assert_eq!(r.right, 0);
}

#[test]
fn insets_repeated_calls_identical() {
    let first = get_safe_area_insets("window-a");
    for _ in 0..10 {
        assert_eq!(get_safe_area_insets("window-a"), first);
    }
    assert_eq!(first, fallback());
}

#[test]
fn insets_ignore_handle() {
    assert_eq!(get_safe_area_insets(0u64), fallback());
    assert_eq!(get_safe_area_insets(u64::MAX), fallback());
    assert_eq!(get_safe_area_insets(Option::<String>::None), fallback());
    assert_eq!(get_safe_area_insets(vec![1u8, 2, 3]), fallback());
}

#[test]
fn startup_new_state() {
    let s = Startup::new(Platform::Ios);
    assert_eq!(s.platform(), Platform::Ios);
    assert_eq!(s.phase(), Phase::Activating);
    assert_eq!(s.activated(), 0);
    assert_eq!(s.next_action(), StartupAction::Activate(Capability::Storage));
}

#[test]
fn desktop_startup_end_to_end() {
    let mut s = Startup::new(Platform::Linux);
    let mut actions = vec![s.next_action()];
    while !matches!(actions.last(), Some(StartupAction::Finished | StartupAction::Abort(_))) {
        actions.push(s.advance(true));
    }
    assert_eq!(
        actions,
        vec![
            StartupAction::Activate(Capability::Storage),
            StartupAction::Activate(Capability::Network),
            StartupAction::Activate(Capability::OsInfo),
            StartupAction::RegisterCommand,
            StartupAction::RunEventLoop,
            StartupAction::Finished,
        ]
    );
    assert!(!actions.contains(&StartupAction::Activate(Capability::EdgeToEdge)));
    assert_eq!(s.phase(), Phase::Exited);
    assert_eq!(get_safe_area_insets(()), SafeAreaInsets { top: 24, bottom: 24, left: 0, right: 0 });
}

#[test]
fn mobile_startup_all_succeed() {
    let mut s = Startup::new(Platform::Android);
    assert_eq!(s.advance(true), StartupAction::Activate(Capability::Network));
    assert_eq!(s.advance(true), StartupAction::Activate(Capability::OsInfo));
    assert_eq!(s.advance(true), StartupAction::Activate(Capability::EdgeToEdge));
    assert_eq!(s.advance(true), StartupAction::RegisterCommand);
    assert_eq!(s.activated(), 4);
    assert_eq!(s.advance(true), StartupAction::RunEventLoop);
    assert_eq!(s.advance(true), StartupAction::Finished);
}

#[test]
fn mobile_storage_failure_aborts_before_event_loop() {
    let mut s = Startup::new(Platform::Android);
    assert_eq!(s.next_action(), StartupAction::Activate(Capability::Storage));
    let abort = StartupAction::Abort(StartupFailure::Module(Capability::Storage));
    assert_eq!(s.advance(false), abort);
    for ok in [true, true, false, true, true, true] {
        let a = s.advance(ok);
        assert_eq!(a, abort);
        assert_ne!(a, StartupAction::RegisterCommand);
        assert_ne!(a, StartupAction::RunEventLoop);
    }
    assert_eq!(s.phase(), Phase::Aborted(StartupFailure::Module(Capability::Storage)));
    assert_eq!(s.activated(), 0);
}

#[test]
fn edge_to_edge_failure_names_module() {
    let mut s = Startup::new(Platform::Ios);
    s.advance(true);
    s.advance(true);
    s.advance(true);
    assert_eq!(
        s.advance(false),
        StartupAction::Abort(StartupFailure::Module(Capability::EdgeToEdge))
    );
}

#[test]
fn command_registration_failure() {
    let mut s = Startup::new(Platform::Windows);
    for _ in 0..3 {
        s.advance(true);
    }
    assert_eq!(s.next_action(), StartupAction::RegisterCommand);
    assert_eq!(s.advance(false), StartupAction::Abort(StartupFailure::Command));
}

#[test]
fn runtime_failure() {
    let mut s = Startup::new(Platform::MacOs);
    for _ in 0..4 {
        s.advance(true);
    }
    assert_eq!(s.next_action(), StartupAction::RunEventLoop);
    assert_eq!(s.advance(false), StartupAction::Abort(StartupFailure::Runtime));
    assert_eq!(s.advance(true), StartupAction::Abort(StartupFailure::Runtime));
}
