use global_mouse_hook::backend::{PumpLifecycle, PumpPhase};

#[test]
fn successful_install_releases_on_quit() {
    let mut p = PumpLifecycle::spawn();
    assert_eq!(p.phase, PumpPhase::Installing);
    p.install_finished(true);
    assert_eq!(p.phase, PumpPhase::Pumping);
    assert!(p.hook_installed);
    let release = p.quit_received();
    assert!(release);
    assert_eq!(p.phase, PumpPhase::Done);
    assert!(p.hook_released);
}

#[test]
fn failed_install_still_pumps_and_releases_nothing() {
    let mut p = PumpLifecycle::spawn();
    p.install_finished(false);
    // The thread still enters its pump loop so a stop can end it.
    assert_eq!(p.phase, PumpPhase::Pumping);
    assert!(!p.hook_installed);
    let release = p.quit_received();
    assert!(!release);
    assert!(!p.hook_released);
    assert_eq!(p.phase, PumpPhase::Done);
}
