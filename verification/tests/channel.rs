use ppd_egui::PpdValue;
use ppd_egui::Profile;
use ppd_egui::Queue;
use ppd_egui::Received;

#[test]
fn queue_is_fifo() {
    let mut q = Queue::new();
    q.send(PpdValue::Profile(Profile::Balanced)).unwrap();
    q.send(PpdValue::BatteryAware(true)).unwrap();
    q.send(PpdValue::Profile(Profile::Other)).unwrap();
    assert_eq!(q.try_receive(), Some(PpdValue::Profile(Profile::Balanced)));
    assert_eq!(q.try_receive(), Some(PpdValue::BatteryAware(true)));
    assert_eq!(q.try_receive(), Some(PpdValue::Profile(Profile::Other)));
    assert_eq!(q.try_receive(), None);
}

#[test]
fn send_fails_only_once_closed() {
    let mut q = Queue::new();
    assert!(q.send(PpdValue::BatteryAware(false)).is_ok());
    q.close();
    assert!(q.send(PpdValue::BatteryAware(true)).is_err());
}

#[test]
fn closing_keeps_messages_in_flight() {
    let mut q = Queue::new();
    q.send(PpdValue::Profile(Profile::PowerSaver)).unwrap();
    q.close();
    assert_eq!(
        q.receive(),
        Received::Msg(PpdValue::Profile(Profile::PowerSaver))
    );
    assert_eq!(q.receive(), Received::Shut);
}

#[test]
fn receive_on_an_open_empty_queue_stays_pending() {
    let mut q = Queue::new();
    assert_eq!(q.receive(), Received::Pending);
    assert!(!q.is_closed());
    assert_eq!(q.len(), 0);
}
