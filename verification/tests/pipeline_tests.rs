use steamguard_qr_login::dispatch::{classify_spawn, prepare_dispatch, Report, SpawnOutcome};
use steamguard_qr_login::mux::{Mux, StepAction};
use steamguard_qr_login::registry::Registry;
use steamguard_qr_login::scanner::ScanResult;

fn two_accounts() -> Registry {
    Registry::from_names(vec!["alice".to_string(), "bob".to_string()])
}

#[test]
fn mux_dispatches_first_code_and_skips_the_rest() {
    // Displays yield, in enumeration order: NotFound, "X", "Y".
    let mut mux = Mux::new(3);
    assert!(mux.scanning());
    assert!(matches!(mux.step(ScanResult::NotFound), StepAction::Continue));
    assert!(mux.scanning());
    match mux.step(ScanResult::Decoded("X".to_string())) {
        StepAction::Dispatch(p) => assert_eq!(p, "X"),
        StepAction::Continue => panic!("the first decoded payload must be dispatched"),
    }
    // The walk is over: the third display is never examined.
    assert!(!mux.scanning());
    assert!(!mux.no_code_found());
    assert_eq!(mux.examined, 2);
}

#[test]
fn mux_reports_no_code_after_exhausting_all_displays() {
    let mut mux = Mux::new(2);
    assert!(matches!(mux.step(ScanResult::NotFound), StepAction::Continue));
    assert!(mux.scanning());
    assert!(matches!(mux.step(ScanResult::NotFound), StepAction::Continue));
    assert!(!mux.scanning());
    assert!(mux.no_code_found());
}

#[test]
fn mux_with_no_displays_owes_the_report_at_once() {
    let mux = Mux::new(0);
    assert!(!mux.scanning());
    assert!(mux.no_code_found());
}

#[test]
fn dispatch_builds_exact_invocation() {
    let reg = two_accounts();
    let inv = prepare_dispatch(&reg, "https://s.team/q/ABC").expect("accounts are loaded");
    assert_eq!(inv.program, "steamguard");
    assert_eq!(
        inv.args,
        vec!["-u", "alice", "qr-login", "--url", "https://s.team/q/ABC"]
    );
}

#[test]
fn dispatch_refused_on_empty_registry() {
    let reg = Registry::from_names(Vec::new());
    assert!(prepare_dispatch(&reg, "https://s.team/q/ABC").is_none());
}

#[test]
fn spawn_success_reports_logged_in_identity() {
    let rep = classify_spawn("bob", &SpawnOutcome::Spawned).expect("success is reported");
    assert_eq!(rep.text(), "Logged in using: bob!");
}

#[test]
fn missing_tool_reports_exact_message() {
    let rep = classify_spawn("bob", &SpawnOutcome::ToolNotFound).expect("missing tool is reported");
    assert_eq!(rep.text(), "Steamguard not found!");
}

#[test]
fn other_spawn_failure_is_not_reported() {
    assert!(classify_spawn("bob", &SpawnOutcome::OtherFailure).is_none());
}

#[test]
fn report_texts_are_exact() {
    assert_eq!(
        Report::Ready.text(),
        "Now listening for Shift + F8 to take a screenshot and login to Steamguard!"
    );
    assert_eq!(Report::NoCode.text(), "No QR Codes found on screen!");
    assert_eq!(Report::ToolMissing.text(), "Steamguard not found!");
    assert_eq!(Report::LoggedIn("alice".to_string()).text(), "Logged in using: alice!");
}

#[test]
fn scenario_select_bob_then_scan_display_two() {
    // Config with two entries: registry has both accounts, active index 0.
    let mut reg = two_accounts();
    assert_eq!(reg.active, Some(0));

    // The user activates "bob": active index becomes 1, label shows "bob".
    reg.set_association(0, "id-alice".to_string());
    reg.set_association(1, "id-bob".to_string());
    let label = reg.handle_activation(&"id-bob".to_string());
    assert_eq!(label.as_deref(), Some("bob"));
    assert_eq!(reg.active, Some(1));

    // The trigger fires; display 2 carries a valid code.
    let snapshot = reg.snapshot();
    let mut mux = Mux::new(2);
    assert!(matches!(mux.step(ScanResult::NotFound), StepAction::Continue));
    let payload = match mux.step(ScanResult::Decoded("https://s.team/q/XYZ".to_string())) {
        StepAction::Dispatch(p) => p,
        StepAction::Continue => panic!("the code on display 2 must be dispatched"),
    };

    // The dispatcher is invoked with identity "bob" and the exact payload.
    let inv = prepare_dispatch(&snapshot, &payload).expect("accounts are loaded");
    assert_eq!(inv.args, vec!["-u", "bob", "qr-login", "--url", "https://s.team/q/XYZ"]);

    // A successful spawn reports the logged-in identity.
    let identity = snapshot.active_identity().expect("non-empty registry");
    let rep = classify_spawn(&identity, &SpawnOutcome::Spawned).expect("success is reported");
    assert_eq!(rep.text(), "Logged in using: bob!");
}

#[test]
fn scenario_no_code_on_any_display() {
    let mut mux = Mux::new(2);
    let mut dispatched = false;
    for outcome in [ScanResult::NotFound, ScanResult::NotFound] {
        if !mux.scanning() {
            break;
        }
        if let StepAction::Dispatch(_) = mux.step(outcome) {
            dispatched = true;
        }
    }
    // The report is emitted and the dispatcher is never invoked.
    assert!(mux.no_code_found());
    assert!(!dispatched);
    assert_eq!(Report::NoCode.text(), "No QR Codes found on screen!");
}
