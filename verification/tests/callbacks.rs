use wlan_engine::callbacks::{
    classify_notification, wlan_acm_notification_callback, LockAttempt, RawNotification,
    StatusChannel, TryRecvError,
};
use wlan_engine::wlan_enums::ConnectionNotifcation;

fn acm(code: u32) -> Option<RawNotification> {
    Some(RawNotification { source: 8, code, payload: Some(0) })
}

fn msm(code: u32, reason: u32) -> Option<RawNotification> {
    Some(RawNotification { source: 16, code, payload: Some(reason) })
}

#[test]
fn connection_manager_notifications_are_classified_by_code() {
    assert_eq!(classify_notification(acm(9)), Some(ConnectionNotifcation::ConnectionStart));
    assert_eq!(classify_notification(acm(10)), Some(ConnectionNotifcation::ConnectionComplete));
    assert_eq!(classify_notification(acm(11)), Some(ConnectionNotifcation::ConnectionAttemptFail));
    assert_eq!(classify_notification(acm(21)), Some(ConnectionNotifcation::Disconnected));
}

#[test]
fn unrecognised_codes_are_unknown() {
    assert_eq!(classify_notification(acm(0)), Some(ConnectionNotifcation::Unknown));
    assert_eq!(classify_notification(acm(7)), Some(ConnectionNotifcation::Unknown));
    assert_eq!(classify_notification(acm(0x7fff_ffff)), Some(ConnectionNotifcation::Unknown));
    assert_eq!(classify_notification(acm(0x8000_0000)), Some(ConnectionNotifcation::Unknown));
    assert_eq!(classify_notification(acm(u32::MAX)), Some(ConnectionNotifcation::Unknown));
}

#[test]
fn media_specific_notifications_are_classified_by_reason() {
    assert_eq!(classify_notification(msm(0, 11)), Some(ConnectionNotifcation::InvalidPassword));
    assert_eq!(classify_notification(msm(9, 11)), Some(ConnectionNotifcation::InvalidPassword));
    assert_eq!(classify_notification(msm(9, 10)), Some(ConnectionNotifcation::Unknown));
    assert_eq!(classify_notification(msm(9, 0)), Some(ConnectionNotifcation::Unknown));
}

#[test]
fn missing_payload_is_an_error_under_either_source() {
    let from_acm = Some(RawNotification { source: 8, code: 10, payload: None });
    let from_msm = Some(RawNotification { source: 16, code: 10, payload: None });
    assert_eq!(classify_notification(from_acm), Some(ConnectionNotifcation::Error));
    assert_eq!(classify_notification(from_msm), Some(ConnectionNotifcation::Error));
}

#[test]
fn missing_record_is_an_error() {
    assert_eq!(classify_notification(None), Some(ConnectionNotifcation::Error));
}

#[test]
fn other_sources_give_no_event() {
    let sources = [0u32, 1, 2, 4, 24, 32, 0xffff];
    for source in sources.iter() {
        let raw = Some(RawNotification { source: *source, code: 10, payload: Some(11) });
        assert_eq!(classify_notification(raw), None);
        let bare = Some(RawNotification { source: *source, code: 10, payload: None });
        assert_eq!(classify_notification(bare), None);
    }
}

#[test]
fn held_lock_drops_the_notification() {
    assert_eq!(wlan_acm_notification_callback(LockAttempt::WouldBlock, acm(10)), None);
    assert_eq!(wlan_acm_notification_callback(LockAttempt::WouldBlock, msm(0, 11)), None);
    assert_eq!(wlan_acm_notification_callback(LockAttempt::WouldBlock, None), None);
}

#[test]
fn free_lock_sends_the_event() {
    assert_eq!(
        wlan_acm_notification_callback(LockAttempt::Acquired, acm(10)),
        Some(ConnectionNotifcation::ConnectionComplete)
    );
    assert_eq!(
        wlan_acm_notification_callback(LockAttempt::Acquired, None),
        Some(ConnectionNotifcation::Error)
    );
}

#[test]
fn poisoned_lock_is_used_like_a_free_one() {
    assert_eq!(
        wlan_acm_notification_callback(LockAttempt::Poisoned, acm(21)),
        Some(ConnectionNotifcation::Disconnected)
    );
    assert_eq!(
        wlan_acm_notification_callback(LockAttempt::Poisoned, msm(0, 11)),
        Some(ConnectionNotifcation::InvalidPassword)
    );
}

#[test]
fn channel_hands_events_out_in_order() {
    let mut channel = StatusChannel::new();
    assert_eq!(channel.try_recv(), Err(TryRecvError::Empty));
    assert!(channel.try_send(ConnectionNotifcation::ConnectionStart));
    assert!(channel.try_send(ConnectionNotifcation::ConnectionComplete));
    assert!(channel.try_send(ConnectionNotifcation::Disconnected));
    assert_eq!(channel.try_recv(), Ok(ConnectionNotifcation::ConnectionStart));
    assert_eq!(channel.try_recv(), Ok(ConnectionNotifcation::ConnectionComplete));
    assert_eq!(channel.try_recv(), Ok(ConnectionNotifcation::Disconnected));
    assert_eq!(channel.try_recv(), Err(TryRecvError::Empty));
}

#[test]
fn delivery_under_a_held_lock_leaves_the_queue_alone() {
    let mut channel = StatusChannel::new();
    assert!(channel.deliver(LockAttempt::Acquired, acm(9)));
    assert!(!channel.deliver(LockAttempt::WouldBlock, acm(10)));
    assert!(channel.deliver(LockAttempt::Poisoned, acm(21)));
    assert_eq!(channel.try_recv(), Ok(ConnectionNotifcation::ConnectionStart));
    assert_eq!(channel.try_recv(), Ok(ConnectionNotifcation::Disconnected));
    assert_eq!(channel.try_recv(), Err(TryRecvError::Empty));
}

#[test]
fn delivery_of_an_ignored_source_queues_nothing() {
    let mut channel = StatusChannel::new();
    let raw = Some(RawNotification { source: 2, code: 10, payload: Some(0) });
    assert!(!channel.deliver(LockAttempt::Acquired, raw));
    assert_eq!(channel.try_recv(), Err(TryRecvError::Empty));
}

#[test]
fn disconnected_channel_drains_and_then_says_so() {
    let mut channel = StatusChannel::new();
    assert!(channel.try_send(ConnectionNotifcation::InvalidPassword));
    channel.disconnect();
    assert!(!channel.try_send(ConnectionNotifcation::ConnectionStart));
    assert!(!channel.deliver(LockAttempt::Acquired, acm(9)));
    assert_eq!(channel.try_recv(), Ok(ConnectionNotifcation::InvalidPassword));
    assert_eq!(channel.try_recv(), Err(TryRecvError::Disconnected));
    assert_eq!(channel.try_recv(), Err(TryRecvError::Disconnected));
}
