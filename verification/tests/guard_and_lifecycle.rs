//! Tests of the Signal Guard protocol, the Platform Initializer state
//! machine, and the event-dispatch interceptor.

use std::collections::HashMap;

use chromium_swt::lifecycle::{
    x_error_status, x_io_error_status, DispatchInterceptor, EngineLifecycle, PreInitStep,
};
use chromium_swt::signals::{
    fixed_signal_set, replacement_disposition, ReplacementDisposition, Signal, SignalBackup,
};
use chromium_swt::{BridgeError, Platform};

#[test]
fn fixed_signal_set_is_the_thirteen_claimed_signals() {
    let set = fixed_signal_set();
    assert_eq!(set.len(), 13);
    assert_eq!(set[0], Signal::Hup);
    assert_eq!(set[12], Signal::Pipe);
    for (i, a) in set.iter().enumerate() {
        for b in set.iter().skip(i + 1) {
            assert_ne!(a, b);
        }
    }
}

/// Simulates a guarded initialization over a disposition table and checks
/// the restoration law on concrete values: every guarded signal ends with
/// its original disposition, and signals the bridge does not claim keep
/// whatever the engine left.
#[test]
fn guarded_initialize_round_trip_restores_dispositions() {
    let mut dispositions: HashMap<Signal, u64> = HashMap::new();
    for (i, sig) in fixed_signal_set().iter().enumerate() {
        dispositions.insert(*sig, 100 + i as u64);
    }
    let before = dispositions.clone();

    // save phase: swap in the default disposition (0), recording the old one
    let mut backup = SignalBackup::new();
    while let Some(sig) = backup.pending() {
        let old = dispositions.insert(sig, 0).unwrap();
        backup.record(sig, old);
    }
    assert!(backup.is_complete());

    // the engine scribbles over everything it likes
    for sig in fixed_signal_set() {
        dispositions.insert(sig, 999);
    }

    // restore phase, in recorded order
    for (sig, old) in backup.restore_entries() {
        dispositions.insert(*sig, *old);
    }
    assert_eq!(dispositions, before);
}

#[test]
fn save_pass_installs_the_default_disposition() {
    assert_eq!(replacement_disposition(), ReplacementDisposition::SystemDefault);
}

#[test]
fn backup_records_signals_in_the_fixed_order() {
    let mut backup = SignalBackup::new();
    let mut seen = Vec::new();
    while let Some(sig) = backup.pending() {
        seen.push(sig);
        backup.record(sig, 7);
    }
    assert_eq!(seen, fixed_signal_set());
    assert!(backup.is_complete());
    assert_eq!(backup.restore_entries().len(), 13);
    assert!(backup.restore_entries().iter().all(|(_, old)| *old == 7));
}

#[test]
fn initialization_happens_once_per_process() {
    let mut lc = EngineLifecycle::new();
    assert_eq!(lc.check_operable().unwrap_err(), BridgeError::NotInitialized);
    let steps = lc.begin_initialization(Platform::X11).unwrap();
    assert_eq!(steps, vec![PreInitStep::InstallXErrorHandlers]);
    assert!(lc.check_operable().is_ok());
    assert_eq!(
        lc.begin_initialization(Platform::X11).unwrap_err(),
        BridgeError::AlreadyInitialized
    );
}

#[test]
fn pre_init_steps_differ_per_platform() {
    let mut cocoa = EngineLifecycle::new();
    assert_eq!(
        cocoa.begin_initialization(Platform::Cocoa).unwrap(),
        vec![PreInitStep::ApplyDispatchInterceptor]
    );
    let mut win = EngineLifecycle::new();
    assert_eq!(win.begin_initialization(Platform::Win32).unwrap(), vec![]);
}

#[test]
fn shutdown_is_terminal() {
    let mut lc = EngineLifecycle::new();
    assert_eq!(lc.shutdown().unwrap_err(), BridgeError::NotInitialized);
    lc.begin_initialization(Platform::Win32).unwrap();
    assert!(lc.shutdown().is_ok());
    assert_eq!(lc.check_operable().unwrap_err(), BridgeError::AlreadyShutDown);
    assert_eq!(lc.shutdown().unwrap_err(), BridgeError::AlreadyShutDown);
    assert_eq!(
        lc.begin_initialization(Platform::Win32).unwrap_err(),
        BridgeError::AlreadyShutDown
    );
}

#[test]
fn pump_needs_a_running_engine_and_rejects_reentry() {
    let mut lc = EngineLifecycle::new();
    assert_eq!(lc.begin_pump().unwrap_err(), BridgeError::NotInitialized);
    lc.begin_initialization(Platform::Win32).unwrap();
    assert!(lc.begin_pump().is_ok());
    // a tick is running: entering again is the reentrancy misuse
    assert_eq!(lc.begin_pump().unwrap_err(), BridgeError::ReentrantPump);
    lc.end_pump();
    assert!(lc.begin_pump().is_ok());
    lc.end_pump();
    lc.shutdown().unwrap();
    assert_eq!(lc.begin_pump().unwrap_err(), BridgeError::AlreadyShutDown);
}

#[test]
fn dispatch_interceptor_applies_once() {
    let mut di = DispatchInterceptor::new();
    assert!(di.apply().is_ok());
    assert_eq!(di.apply().unwrap_err(), BridgeError::InterceptorAlreadyApplied);
}

#[test]
fn dispatch_marker_toggles_and_restores_across_nesting() {
    let mut di = DispatchInterceptor::new();
    di.apply().unwrap();
    assert!(!di.is_handling_event());
    let outer = di.enter_dispatch();
    assert!(!outer);
    assert!(di.is_handling_event());
    // a reentrant dispatch sees the marker set and restores it on exit
    let inner = di.enter_dispatch();
    assert!(inner);
    di.exit_dispatch(inner);
    assert!(di.is_handling_event());
    di.exit_dispatch(outer);
    assert!(!di.is_handling_event());
}

#[test]
fn x_error_handlers_report_nonfatal_status() {
    assert_eq!(x_error_status(), 0);
    assert_eq!(x_io_error_status(), 0);
}
