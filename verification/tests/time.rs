use apps_service::time::{CallbackReason, SharedObj, TimeEvent, TimeInfo};

#[test]
fn observers_get_increasing_ids() {
    let mut shared: SharedObj<&str> = SharedObj::new();
    assert_eq!(shared.count(), 0);
    assert_eq!(shared.add_observer(CallbackReason::TimeChanged, "a"), Some(1));
    assert_eq!(shared.add_observer(CallbackReason::TimezoneChanged, "b"), Some(2));
    assert_eq!(shared.add_observer(CallbackReason::TimeChanged, "c"), Some(3));
    assert_eq!(shared.count(), 3);
}

#[test]
fn removal_needs_both_the_reason_and_the_id() {
    let mut shared: SharedObj<&str> = SharedObj::new();
    let a = shared.add_observer(CallbackReason::TimeChanged, "a").unwrap();
    let b = shared.add_observer(CallbackReason::TimezoneChanged, "b").unwrap();
    let c = shared.add_observer(CallbackReason::TimeChanged, "c").unwrap();

    // The id of b under another reason removes nothing.
    shared.remove_observer(CallbackReason::TimeChanged, b);
    assert_eq!(shared.count(), 3);

    shared.remove_observer(CallbackReason::TimeChanged, a);
    assert_eq!(shared.count(), 2);
    let told = shared.broadcast(CallbackReason::TimeChanged, String::from("UTC"), 5, None);
    assert_eq!(told.observers, vec![&"c"]);

    shared.remove_observer(CallbackReason::TimeChanged, c);
    shared.remove_observer(CallbackReason::TimezoneChanged, b);
    assert_eq!(shared.count(), 0);
    // Ids are not handed out again.
    assert_eq!(shared.add_observer(CallbackReason::TimeChanged, "d"), Some(4));
}

#[test]
fn broadcast_tells_the_observers_of_the_reason_in_order() {
    let mut shared: SharedObj<&str> = SharedObj::new();
    let _ = shared.add_observer(CallbackReason::TimeChanged, "a");
    let _ = shared.add_observer(CallbackReason::TimezoneChanged, "b");
    let _ = shared.add_observer(CallbackReason::TimeChanged, "c");

    let told = shared.broadcast(CallbackReason::TimeChanged, String::new(), -3, None);
    assert_eq!(told.observers, vec![&"a", &"c"]);
    assert_eq!(told.event, Some(TimeEvent::TimeChanged));
    assert_eq!(
        told.info,
        TimeInfo { reason: CallbackReason::TimeChanged, timezone: String::new(), delta: -3 }
    );
    assert_eq!(told.info.clone(), told.info);

    let told = shared.broadcast(
        CallbackReason::TimezoneChanged,
        String::from("Asia/Taipei"),
        0,
        Some(String::from("Europe/Paris")),
    );
    assert_eq!(told.observers, vec![&"b"]);
    assert_eq!(told.event, Some(TimeEvent::TimezoneChanged));
    assert_eq!(told.info.timezone, "Asia/Taipei");

    // Without a time zone from the caller, the local one is told.
    let told = shared.broadcast(
        CallbackReason::TimeChanged,
        String::new(),
        0,
        Some(String::from("Europe/Paris")),
    );
    assert_eq!(told.info.timezone, "Europe/Paris");

    let told = shared.broadcast(CallbackReason::Unset, String::new(), 0, None);
    assert_eq!(told.observers, Vec::<&&str>::new());
    assert_eq!(told.event, None);
}
