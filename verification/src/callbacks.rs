//! The notification path: what the callback makes of a raw notification,
//! and the queue that carries events to the poller.
//!
//! The callback runs on a thread of the operating system's choosing. It
//! tries the queue's lock once and never waits for it: where the lock is
//! held, the notification is lost. The embedding program owns the lock and
//! tells the engine how the attempt ended.

use vstd::prelude::*;
use std::collections::VecDeque;
use crate::wlan_enums::{
    connection_event_of, convert_connection_notification, convert_msm_notification,
    reason_event_of, ConnectionNotifcation,
};

verus! {

/// Notification source: the connection manager.
pub const WLAN_NOTIFICATION_SOURCE_ACM: u32 = 8;

/// Notification source: the media-specific module.
pub const WLAN_NOTIFICATION_SOURCE_MSM: u32 = 16;

/// What the callback copies out of the record it is handed.
#[derive(Clone, Copy, Debug, PartialEq, Eq, Structural)]
pub struct RawNotification {
    /// The source that raised the notification.
    pub source: u32,
    /// The notification code, whose meaning depends on the source.
    pub code: u32,
    /// The first word of the payload, or nothing where the record has no
    /// payload.
    pub payload: Option<u32>,
}

/// How a single attempt to take the queue's lock ended.
#[derive(Clone, Copy, Debug, PartialEq, Eq, Structural)]
pub enum LockAttempt {
    /// The lock was free and is now held.
    Acquired,
    /// A previous holder panicked; the lock is held and its value is used
    /// as it stands.
    Poisoned,
    /// The lock is held by someone else.
    WouldBlock,
}

/// Why a receive attempt gave no event.
#[derive(Clone, Copy, Debug, PartialEq, Eq, Structural)]
pub enum TryRecvError {
    /// No event is queued.
    Empty,
    /// No event is queued and the sending side is gone.
    Disconnected,
}

/// The event that a notification stands for, if it stands for one. A
/// missing record is an error event. Under the connection manager the code
/// decides, under the media-specific module the payload does, and under
/// either a missing payload is an error event. Any other source gives no
/// event.
pub open spec fn classify(notification: Option<RawNotification>) -> Option<ConnectionNotifcation> {
    match notification {
        None => Some(ConnectionNotifcation::Error),
        Some(raw) => if raw.source == WLAN_NOTIFICATION_SOURCE_ACM {
            match raw.payload {
                None => Some(ConnectionNotifcation::Error),
                Some(_) => Some(connection_event_of(raw.code as int)),
            }
        } else if raw.source == WLAN_NOTIFICATION_SOURCE_MSM {
            match raw.payload {
                None => Some(ConnectionNotifcation::Error),
                Some(reason) => Some(reason_event_of(reason)),
            }
        } else {
            None
        },
    }
}

/// Classifies a notification.
pub fn classify_notification(notification: Option<RawNotification>) -> (event: Option<
    ConnectionNotifcation,
>)
    ensures
        event == classify(notification),
{
    match notification {
        None => Some(ConnectionNotifcation::Error),
        Some(raw) => {
            if raw.source == WLAN_NOTIFICATION_SOURCE_ACM {
                match raw.payload {
                    None => Some(ConnectionNotifcation::Error),
                    Some(_) => if raw.code <= 0x7fff_ffff {
                        Some(convert_connection_notification(raw.code as i32))
                    } else {
                        Some(ConnectionNotifcation::Unknown)
                    },
                }
            } else if raw.source == WLAN_NOTIFICATION_SOURCE_MSM {
                match raw.payload {
                    None => Some(ConnectionNotifcation::Error),
                    Some(reason) => Some(convert_msm_notification(raw.code, reason)),
                }
            } else {
                None
            }
        },
    }
}

/// The event that the callback has to send, if any: none where the lock
/// would block, else what the notification stands for. A poisoned lock is
/// used like a free one.
pub open spec fn callback_event(lock: LockAttempt, notification: Option<RawNotification>) -> Option<
    ConnectionNotifcation,
> {
    if lock is WouldBlock {
        None
    } else {
        classify(notification)
    }
}

/// Decides what the notification callback sends. The caller has tried the
/// lock once, without waiting, and sends the event that comes back, if one
/// does, while it holds the lock.
pub fn wlan_acm_notification_callback(
    lock: LockAttempt,
    notification: Option<RawNotification>,
) -> (event: Option<ConnectionNotifcation>)
    ensures
        event == callback_event(lock, notification),
        lock is WouldBlock ==> event is None,
{
    match lock {
        LockAttempt::WouldBlock => None,
        LockAttempt::Acquired => classify_notification(notification),
        LockAttempt::Poisoned => classify_notification(notification),
    }
}

/// Every notification of the connection manager or of the media-specific
/// module stands for exactly one event: an error event where the payload is
/// missing, and else the event of its code or of its reason, which is
/// `Unknown` for every code and reason without a meaning of its own.
pub proof fn lemma_classification_total(source: u32, code: u32, payload: Option<u32>)
    requires
        source == WLAN_NOTIFICATION_SOURCE_ACM || source == WLAN_NOTIFICATION_SOURCE_MSM,
    ensures
        classify(Some(RawNotification { source, code, payload })) is Some,
        payload is None ==> classify(Some(RawNotification { source, code, payload })) == Some(
            ConnectionNotifcation::Error,
        ),
        payload is Some && source == WLAN_NOTIFICATION_SOURCE_ACM ==> classify(
            Some(RawNotification { source, code, payload }),
        ) == Some(connection_event_of(code as int)),
        payload is Some && source == WLAN_NOTIFICATION_SOURCE_MSM ==> classify(
            Some(RawNotification { source, code, payload }),
        ) == Some(reason_event_of(payload->0)),
        payload is Some && source == WLAN_NOTIFICATION_SOURCE_ACM && code != 9 && code != 10
            && code != 11 && code != 21 ==> classify(
            Some(RawNotification { source, code, payload }),
        ) == Some(ConnectionNotifcation::Unknown),
        payload is Some && source == WLAN_NOTIFICATION_SOURCE_MSM && payload->0 != 11 ==> classify(
            Some(RawNotification { source, code, payload }),
        ) == Some(ConnectionNotifcation::Unknown),
{
}

/// The queue between the callback and the poller: events leave in the order
/// in which they came.
pub struct StatusChannel {
    queue: VecDeque<ConnectionNotifcation>,
    sender_gone: bool,
}

impl View for StatusChannel {
    type V = Seq<ConnectionNotifcation>;

    /// The queued events, oldest first.
    closed spec fn view(&self) -> Seq<ConnectionNotifcation> {
        self.queue@
    }
}

impl StatusChannel {
    /// Whether the sending side has been shut.
    pub closed spec fn is_disconnected(&self) -> bool {
        self.sender_gone
    }

    /// An empty queue with a live sending side.
    pub fn new() -> (channel: StatusChannel)
        ensures
            channel@ == Seq::<ConnectionNotifcation>::empty(),
            !channel.is_disconnected(),
    {
        StatusChannel { queue: VecDeque::new(), sender_gone: false }
    }

    /// Queues what the callback decided to send. Where the lock would
    /// block, or the notification stands for no event, the queue stays as
    /// it is; so it does once the sending side is shut.
    pub fn deliver(&mut self, lock: LockAttempt, notification: Option<RawNotification>) -> (sent:
        bool)
        ensures
            final(self).is_disconnected() == old(self).is_disconnected(),
            sent == (callback_event(lock, notification) is Some && !old(self).is_disconnected()),
            sent ==> final(self)@ == old(self)@.push(callback_event(lock, notification)->0),
            !sent ==> final(self)@ == old(self)@,
            lock is WouldBlock ==> !sent,
    {
        match wlan_acm_notification_callback(lock, notification) {
            Some(event) => self.try_send(event),
            None => false,
        }
    }

    /// Queues an event behind those already queued, unless the sending side
    /// is shut.
    pub fn try_send(&mut self, event: ConnectionNotifcation) -> (sent: bool)
        ensures
            final(self).is_disconnected() == old(self).is_disconnected(),
            sent == !old(self).is_disconnected(),
            sent ==> final(self)@ == old(self)@.push(event),
            !sent ==> final(self)@ == old(self)@,
    {
        if self.sender_gone {
            false
        } else {
            self.queue.push_back(event);
            true
        }
    }

    /// Takes the oldest queued event without waiting. An empty queue gives
    /// `Empty`, or `Disconnected` once the sending side is shut.
    pub fn try_recv(&mut self) -> (received: Result<ConnectionNotifcation, TryRecvError>)
        ensures
            final(self).is_disconnected() == old(self).is_disconnected(),
            old(self)@.len() > 0 ==> received == Ok::<ConnectionNotifcation, TryRecvError>(
                old(self)@[0],
            ) && final(self)@ == old(self)@.subrange(1, old(self)@.len() as int),
            old(self)@.len() == 0 ==> final(self)@ == old(self)@ && received == Err::<
                ConnectionNotifcation,
                TryRecvError,
            >(
                if old(self).is_disconnected() {
                    TryRecvError::Disconnected
                } else {
                    TryRecvError::Empty
                },
            ),
    {
        match self.queue.pop_front() {
            Some(event) => Ok(event),
            None => {
                if self.sender_gone {
                    Err(TryRecvError::Disconnected)
                } else {
                    Err(TryRecvError::Empty)
                }
            },
        }
    }

    /// Shuts the sending side: nothing is queued from now on, and what is
    /// queued can still be taken.
    pub fn disconnect(&mut self)
        ensures
            final(self).is_disconnected(),
            final(self)@ == old(self)@,
    {
        self.sender_gone = true;
    }
}

} // verus!
