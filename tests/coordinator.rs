use table_windows::descriptor::{add_chart, add_column, delete_column, view_chart};
use table_windows::error::{build_open_dialog_window_error, build_open_window_error, WindowError};
use table_windows::windows::{
    exits_on_close, CloseEffect, CreationOutcome, MainState, WindowCoordinator,
};

#[test]
fn new_coordinator_has_enabled_main_window() {
    let c = WindowCoordinator::new();
    assert_eq!(c.main_state(), MainState::Enabled);
    assert!(!c.is_open("addColumn"));
}

#[test]
fn plain_window_open_and_close_keeps_main_state() {
    let mut c = WindowCoordinator::new();
    let r = view_chart("7", "Costs");
    assert!(c.open_window(&r.info, CreationOutcome::Built).is_ok());
    assert_eq!(c.main_state(), MainState::Enabled);
    assert!(c.is_open("viewChart7"));
    assert_eq!(c.close_window("viewChart7"), CloseEffect::NoEffect);
    assert_eq!(c.main_state(), MainState::Enabled);
    assert!(!c.is_open("viewChart7"));
}

#[test]
fn plain_window_leaves_disabled_main_window_disabled() {
    let mut c = WindowCoordinator::new();
    assert!(c.open_dialog_window(&add_column().info, CreationOutcome::Built).is_ok());
    let r = view_chart("7", "Costs");
    assert!(c.open_window(&r.info, CreationOutcome::Built).is_ok());
    assert_eq!(c.close_window("viewChart7"), CloseEffect::NoEffect);
    assert_eq!(c.main_state(), MainState::Disabled);
}

#[test]
fn dialog_disables_main_window_when_built() {
    let mut c = WindowCoordinator::new();
    assert!(c.open_dialog_window(&add_column().info, CreationOutcome::Built).is_ok());
    assert_eq!(c.main_state(), MainState::Disabled);
    assert!(c.is_open("addColumn"));
}

#[test]
fn refused_dialog_leaves_main_window_enabled() {
    let mut c = WindowCoordinator::new();
    let r = c.open_dialog_window(&add_column().info, CreationOutcome::Refused("duplicate label".to_string()));
    match r {
        Err(WindowError::CreationFailed { title, cause }) => {
            assert_eq!(title, "Add Column");
            assert_eq!(cause, "duplicate label");
        }
        _ => panic!("expected CreationFailed"),
    }
    assert_eq!(c.main_state(), MainState::Enabled);
    assert!(!c.is_open("addColumn"));
}

#[test]
fn failed_disable_reports_creation_failed_and_keeps_main_state() {
    let mut c = WindowCoordinator::new();
    let r = c.open_dialog_window(
        &delete_column().info,
        CreationOutcome::ContinuationFailed("cannot disable".to_string()),
    );
    match r {
        Err(WindowError::CreationFailed { title, cause }) => {
            assert_eq!(title, "Delete Column");
            assert_eq!(cause, "cannot disable");
        }
        _ => panic!("expected CreationFailed"),
    }
    assert_eq!(c.main_state(), MainState::Enabled);
    assert!(c.is_open("deleteColumn"));
    assert_eq!(c.close_window("deleteColumn"), CloseEffect::NoEffect);
    assert_eq!(c.main_state(), MainState::Enabled);
}

#[test]
fn aborted_worker_gives_execution_aborted_with_title() {
    let mut c = WindowCoordinator::new();
    let r = c.open_dialog_window(&add_column().info, CreationOutcome::Aborted("worker panicked".to_string()));
    let e = match r {
        Err(e) => e,
        Ok(()) => panic!("expected an error"),
    };
    match &e {
        WindowError::ExecutionAborted { title, cause } => {
            assert_eq!(title, "Add Column");
            assert_eq!(cause, "worker panicked");
        }
        _ => panic!("expected ExecutionAborted"),
    }
    let line = e.message();
    assert_eq!(line, "Failed to open a Add Column window: worker panicked");
    assert!(line.contains("Add Column"));
    assert_eq!(c.main_state(), MainState::Enabled);
}

#[test]
fn aborted_plain_window_is_logged_with_title() {
    let mut c = WindowCoordinator::new();
    let r = c.open_window(&view_chart("42", "Revenue").info, CreationOutcome::Aborted("boom".to_string()));
    let e = r.unwrap_err();
    assert_eq!(e.title(), "View Chart Revenue");
    assert_eq!(e.cause(), "boom");
    assert_eq!(e.message(), "Failed to open a View Chart Revenue window: boom");
}

#[test]
fn closing_dialog_enables_main_window_once() {
    let mut c = WindowCoordinator::new();
    assert!(c.open_dialog_window(&add_column().info, CreationOutcome::Built).is_ok());
    assert_eq!(c.close_window("addColumn"), CloseEffect::EnableMainWindow);
    assert_eq!(c.main_state(), MainState::Enabled);
    assert_eq!(c.close_window("addColumn"), CloseEffect::NoEffect);
    assert_eq!(c.main_state(), MainState::Enabled);
}

#[test]
fn two_chart_windows_close_independently() {
    let mut c = WindowCoordinator::new();
    assert!(c.open_window(&view_chart("1", "Sales").info, CreationOutcome::Built).is_ok());
    assert!(c.open_window(&view_chart("2", "Costs").info, CreationOutcome::Built).is_ok());
    assert!(c.is_open("viewChart1"));
    assert!(c.is_open("viewChart2"));
    assert_eq!(c.close_window("viewChart1"), CloseEffect::NoEffect);
    assert!(!c.is_open("viewChart1"));
    assert!(c.is_open("viewChart2"));
    assert_eq!(c.main_state(), MainState::Enabled);
    assert_eq!(c.close_window("viewChart2"), CloseEffect::NoEffect);
    assert!(!c.is_open("viewChart2"));
    assert_eq!(c.main_state(), MainState::Enabled);
}

#[test]
fn second_dialog_close_reenables_while_first_is_open() {
    let mut c = WindowCoordinator::new();
    assert!(c.open_dialog_window(&add_column().info, CreationOutcome::Built).is_ok());
    assert!(c.open_dialog_window(&delete_column().info, CreationOutcome::Built).is_ok());
    assert_eq!(c.close_window("deleteColumn"), CloseEffect::EnableMainWindow);
    assert_eq!(c.main_state(), MainState::Enabled);
    assert!(c.is_open("addColumn"));
}

#[test]
fn closing_unknown_window_changes_nothing() {
    let mut c = WindowCoordinator::new();
    assert!(c.open_dialog_window(&add_column().info, CreationOutcome::Built).is_ok());
    assert_eq!(c.close_window("viewChart9"), CloseEffect::NoEffect);
    assert_eq!(c.main_state(), MainState::Disabled);
}

#[test]
fn error_messages_name_the_title() {
    assert_eq!(build_open_window_error("Add Chart", "E"), "Failed to open a Add Chart window: E");
    assert_eq!(
        build_open_dialog_window_error("Add Chart", "E"),
        "Failed to open a Add Chart window: E"
    );
    assert_eq!(build_open_window_error("", ""), "Failed to open a  window: ");
}

#[test]
fn only_main_window_exits_the_app() {
    assert!(exits_on_close("main"));
    assert!(!exits_on_close("addColumn"));
    assert!(!exits_on_close("mainx"));
}

#[test]
fn window_under_open_label_is_refused() {
    let mut c = WindowCoordinator::new();
    let r = view_chart("1", "Sales");
    assert!(c.open_window(&r.info, CreationOutcome::Built).is_ok());
    match c.open_window(&r.info, CreationOutcome::Built) {
        Err(WindowError::CreationFailed { title, cause }) => {
            assert_eq!(title, "View Chart Sales");
            assert_eq!(cause, "a window labelled viewChart1 is already open");
        }
        _ => panic!("expected CreationFailed"),
    }
    assert_eq!(c.close_window("viewChart1"), CloseEffect::NoEffect);
    assert!(!c.is_open("viewChart1"));
}

#[test]
fn dialog_under_open_label_leaves_main_window_as_it_was() {
    let mut c = WindowCoordinator::new();
    assert!(c.open_window(&add_column().info, CreationOutcome::Built).is_ok());
    let r = c.open_dialog_window(&add_column().info, CreationOutcome::Built);
    assert!(matches!(r, Err(WindowError::CreationFailed { .. })));
    assert_eq!(c.main_state(), MainState::Enabled);
    assert_eq!(c.close_window("addColumn"), CloseEffect::NoEffect);
}

#[test]
fn refused_runtime_outcome_under_open_label_keeps_runtime_cause() {
    let mut c = WindowCoordinator::new();
    assert!(c.open_window(&add_chart().info, CreationOutcome::Built).is_ok());
    match c.open_window(&add_chart().info, CreationOutcome::Refused("exists".to_string())) {
        Err(WindowError::CreationFailed { cause, .. }) => assert_eq!(cause, "exists"),
        _ => panic!("expected CreationFailed"),
    }
}
