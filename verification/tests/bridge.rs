use ppd_egui::Bridge;
use ppd_egui::DispatchAction;
use ppd_egui::Phase;
use ppd_egui::PpdApp;
use ppd_egui::PpdValue;
use ppd_egui::Profile;
use ppd_egui::RepaintHandle;

/// A bridge whose registrar has already run with no handle on offer.
fn active_bridge_without_handle() -> Bridge {
    let mut b = Bridge::new();
    b.send_command(PpdValue::BatteryAware(false)).unwrap();
    assert!(b.await_handle_step());
    assert_eq!(b.phase(), Phase::Active);
    b
}

#[test]
fn registrar_waits_for_the_first_command() {
    let mut b = Bridge::new();
    assert!(!b.await_handle_step());
    assert_eq!(b.phase(), Phase::AwaitHandle);
    b.send_command(PpdValue::Context(RepaintHandle::new(1))).unwrap();
    assert!(b.await_handle_step());
    assert_eq!(b.phase(), Phase::Active);
    assert_eq!(b.repaint_handle(), Some(RepaintHandle::new(1)));
}

#[test]
fn non_handle_first_command_means_no_handle() {
    let b = active_bridge_without_handle();
    assert_eq!(b.repaint_handle(), None);
}

#[test]
fn registrar_accepts_a_closed_queue_as_no_handle() {
    let mut b = Bridge::new();
    b.close_commands();
    assert!(b.await_handle_step());
    assert_eq!(b.repaint_handle(), None);
    assert_eq!(b.phase(), Phase::Active);
}

#[test]
fn notifications_keep_order_and_the_last_one_wins() {
    let mut b = active_bridge_without_handle();
    b.on_profile_notification("power-saver");
    b.on_profile_notification("performance");
    b.on_profile_notification("unknown-mode");
    b.on_profile_notification("balanced");
    let mut app = PpdApp::new(
        vec![Profile::PowerSaver, Profile::Balanced, Profile::Performance],
        Profile::Other,
        false,
    );
    app.drain_events(&mut b);
    assert_eq!(app.current_profile, Profile::Balanced);
    assert_eq!(b.try_receive_event(), None);
}

#[test]
fn toggle_notifications_keep_order_and_the_last_one_wins() {
    let mut b = active_bridge_without_handle();
    b.on_toggle_notification(true);
    b.on_toggle_notification(false);
    b.on_toggle_notification(true);
    let mut app = PpdApp::new(vec![], Profile::Balanced, false);
    app.drain_events(&mut b);
    assert!(app.battery_aware);
    assert_eq!(b.try_receive_event(), None);
}

#[test]
fn events_come_out_in_notification_order() {
    let mut b = active_bridge_without_handle();
    b.on_profile_notification("performance");
    b.on_toggle_notification(true);
    b.on_profile_notification("power-saver");
    assert_eq!(
        b.try_receive_event(),
        Some(PpdValue::Profile(Profile::Performance))
    );
    assert_eq!(b.try_receive_event(), Some(PpdValue::BatteryAware(true)));
    assert_eq!(
        b.try_receive_event(),
        Some(PpdValue::Profile(Profile::PowerSaver))
    );
    assert_eq!(b.try_receive_event(), None);
}

#[test]
fn second_registration_never_replaces_the_first() {
    let mut b = Bridge::new();
    let h1 = RepaintHandle::new(1);
    let h2 = RepaintHandle::new(2);
    b.send_command(PpdValue::Context(h1)).unwrap();
    b.send_command(PpdValue::Context(h2)).unwrap();
    assert!(b.await_handle_step());
    assert_eq!(b.repaint_handle(), Some(h1));
    assert_eq!(b.dispatcher_next(), DispatchAction::Idle);
    assert_eq!(b.repaint_handle(), Some(h1));
}

#[test]
fn failed_write_stops_the_dispatcher_for_good() {
    let mut b = active_bridge_without_handle();
    b.send_command(PpdValue::Profile(Profile::Performance)).unwrap();
    assert_eq!(
        b.dispatcher_next(),
        DispatchAction::WriteProfile(Profile::Performance)
    );
    b.on_write_result(false);
    assert!(!b.dispatcher_runs());
    assert!(b.send_command(PpdValue::Profile(Profile::Balanced)).is_ok());
    assert_eq!(b.dispatcher_next(), DispatchAction::Stop);
    assert_eq!(b.dispatcher_next(), DispatchAction::Stop);
    assert!(!b.dispatcher_runs());
    assert!(b.should_return());
}

#[test]
fn closing_the_command_producer_stops_the_dispatcher_in_one_step() {
    let mut b = active_bridge_without_handle();
    b.close_commands();
    assert_eq!(b.dispatcher_next(), DispatchAction::Stop);
    assert!(!b.dispatcher_runs());
    assert!(b.should_return());
}

#[test]
fn closing_with_commands_in_flight_drains_them_first() {
    let mut b = active_bridge_without_handle();
    b.send_command(PpdValue::BatteryAware(true)).unwrap();
    b.close_commands();
    assert_eq!(b.dispatcher_next(), DispatchAction::WriteToggle(true));
    b.on_write_result(true);
    assert_eq!(b.dispatcher_next(), DispatchAction::Stop);
}

#[test]
fn cancellation_makes_the_entry_point_return_at_once() {
    let mut b = active_bridge_without_handle();
    assert!(!b.should_return());
    b.cancel();
    assert!(b.should_return());
    b.cancel();
    assert!(b.should_return());
    b.terminate();
    assert_eq!(b.phase(), Phase::Terminated);
}

#[test]
fn cancellation_preempts_a_suspended_listener() {
    let mut b = active_bridge_without_handle();
    b.cancel();
    assert!(b.should_return());
    b.on_profile_notification("balanced");
    assert!(!b.profile_listener_runs());
    assert_eq!(b.try_receive_event(), None);
}

#[test]
fn register_then_set_profile_round_trip() {
    let mut b = Bridge::new();
    let h = RepaintHandle::new(7);
    b.send_command(PpdValue::Context(h)).unwrap();
    b.send_command(PpdValue::Profile(Profile::Performance)).unwrap();
    assert!(b.await_handle_step());
    assert_eq!(
        b.dispatcher_next(),
        DispatchAction::WriteProfile(Profile::Performance)
    );
    assert_eq!(Profile::Performance.name(), "performance");
    b.on_write_result(true);
    assert_eq!(b.repaint_requests(), 0);
    b.on_profile_notification("performance");
    assert_eq!(b.repaint_requests(), 1);
    let mut app = PpdApp::new(vec![], Profile::Balanced, false);
    app.drain_events(&mut b);
    assert_eq!(app.current_profile, Profile::Performance);
    assert_eq!(b.repaint_requests(), 1);
}

#[test]
fn unknown_notification_is_delivered_as_other() {
    let mut b = active_bridge_without_handle();
    b.on_profile_notification("unknown-mode");
    assert!(b.profile_listener_runs());
    assert_eq!(b.try_receive_event(), Some(PpdValue::Profile(Profile::Other)));
}

#[test]
fn decode_failure_is_fatal_to_that_listener_only() {
    let mut b = active_bridge_without_handle();
    b.on_profile_decode_failure();
    assert!(!b.profile_listener_runs());
    assert!(b.toggle_listener_runs());
    assert!(b.dispatcher_runs());
    assert!(b.should_return());
    b.on_toggle_notification(true);
    assert_eq!(b.try_receive_event(), Some(PpdValue::BatteryAware(true)));
    b.on_profile_notification("balanced");
    assert_eq!(b.try_receive_event(), None);
}

#[test]
fn toggle_decode_failure_is_fatal_to_the_toggle_listener_only() {
    let mut b = active_bridge_without_handle();
    b.on_toggle_decode_failure();
    assert!(!b.toggle_listener_runs());
    assert!(b.profile_listener_runs());
    assert!(b.should_return());
}

#[test]
fn no_registered_handle_means_no_repaint_requests() {
    let mut b = active_bridge_without_handle();
    b.on_profile_notification("balanced");
    b.on_toggle_notification(true);
    assert_eq!(b.repaint_requests(), 0);
}

#[test]
fn each_delivered_event_requests_one_repaint() {
    let mut b = Bridge::new();
    b.send_command(PpdValue::Context(RepaintHandle::new(3))).unwrap();
    assert!(b.await_handle_step());
    b.on_profile_notification("balanced");
    b.on_toggle_notification(true);
    b.on_profile_notification("power-saver");
    assert_eq!(b.repaint_requests(), 3);
}

#[test]
fn a_closed_event_queue_stops_a_listener() {
    let mut b = active_bridge_without_handle();
    b.close_events();
    b.on_profile_notification("balanced");
    assert!(!b.profile_listener_runs());
    assert!(b.toggle_listener_runs());
    assert_eq!(b.try_receive_event(), None);
}

#[test]
fn notifications_before_activation_are_not_seen() {
    let mut b = Bridge::new();
    b.on_profile_notification("balanced");
    assert_eq!(b.try_receive_event(), None);
    assert!(b.profile_listener_runs());
}

#[test]
fn the_consumer_registers_at_most_once() {
    let mut app = PpdApp::new(vec![Profile::Balanced], Profile::Balanced, false);
    assert!(app.take_context_send());
    assert!(!app.take_context_send());
    assert!(!app.take_context_send());
}

#[test]
fn a_toggle_click_requests_the_opposite_value() {
    let mut app = PpdApp::new(vec![], Profile::Balanced, true);
    assert_eq!(app.toggle_command(), PpdValue::BatteryAware(false));
    app.update_battery_aware(false);
    assert_eq!(app.toggle_command(), PpdValue::BatteryAware(true));
}

#[test]
fn applying_events_updates_the_consumer_state() {
    let mut app = PpdApp::new(vec![], Profile::Balanced, false);
    app.apply_event(&PpdValue::Profile(Profile::PowerSaver));
    assert_eq!(app.current_profile, Profile::PowerSaver);
    app.apply_event(&PpdValue::BatteryAware(true));
    assert!(app.battery_aware);
    app.apply_event(&PpdValue::Context(RepaintHandle::new(9)));
    assert_eq!(app.current_profile, Profile::PowerSaver);
    assert!(app.battery_aware);
}

#[test]
fn draining_an_empty_queue_changes_nothing() {
    let mut b = active_bridge_without_handle();
    let mut app = PpdApp::new(vec![Profile::Balanced], Profile::Balanced, true);
    app.drain_events(&mut b);
    assert_eq!(app.current_profile, Profile::Balanced);
    assert!(app.battery_aware);
}

#[test]
fn send_command_fails_once_the_queue_is_shut() {
    let mut b = active_bridge_without_handle();
    b.close_commands();
    assert!(b.send_command(PpdValue::Profile(Profile::Balanced)).is_err());
}

#[test]
fn repaint_handles_carry_their_identity() {
    let h = RepaintHandle::new(42);
    assert_eq!(h.id(), 42);
    assert_eq!(h, h.clone());
}
