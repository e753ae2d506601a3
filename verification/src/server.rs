//! The notification broker: the protocol surface over the registry, the
//! do-not-disturb gating algorithm, and the decision which way an accepted
//! notification is delivered.
//!
//! The surrounding process serves these methods over IPC: it hands each
//! incoming call to the matching handler here and then performs the returned
//! action (push to the renderer channel, forward to the notification-center
//! process, or emit a signal). The decisions themselves all live here.

use vstd::prelude::*;

use crate::notification::clone_strings;
use crate::notification::created_view;
use crate::notification::empty_image_view;
use crate::notification::HintValue;
use crate::notification::ImageData;
use crate::notification::ImageDataView;
use crate::notification::Notification;
use crate::notification::NotificationView;
use crate::notification::Urgency;
use crate::registry::NotificationWrapper;

verus! {

/// A notification flattened into the fixed-arity wire shape used by
/// `GetAllNotifications` and by the forward call to the notification-center:
/// optional fields are spelled out with their sentinel stand-ins.
pub struct OutboundNotification {
    pub app_name: String,
    pub replaces_id: u32,
    pub app_icon: String,
    pub summary: String,
    pub body: String,
    pub actions: Vec<String>,
    pub expire_timeout: i32,
    pub urgency: i32,
    pub image_path: String,
    pub progress: i32,
    pub image: ImageData,
}

/// Mathematical model of an `OutboundNotification` value.
pub struct OutboundNotificationView {
    pub app_name: Seq<char>,
    pub replaces_id: u32,
    pub app_icon: Seq<char>,
    pub summary: Seq<char>,
    pub body: Seq<char>,
    pub actions: Seq<Seq<char>>,
    pub expire_timeout: i32,
    pub urgency: i32,
    pub image_path: Seq<char>,
    pub progress: i32,
    pub image: ImageDataView,
}

impl View for OutboundNotification {
    type V = OutboundNotificationView;

    open spec fn view(&self) -> OutboundNotificationView {
        OutboundNotificationView {
            app_name: self.app_name@,
            replaces_id: self.replaces_id,
            app_icon: self.app_icon@,
            summary: self.summary@,
            body: self.body@,
            actions: self.actions.deep_view(),
            expire_timeout: self.expire_timeout,
            urgency: self.urgency,
            image_path: self.image_path@,
            progress: self.progress,
            image: self.image@,
        }
    }
}

/// The wire shape of a notification: urgency as its protocol integer, a
/// missing image path as the empty string, missing progress as `-1`, and
/// missing inline image data as the empty sentinel.
pub open spec fn flatten_view(n: NotificationView) -> OutboundNotificationView {
    OutboundNotificationView {
        app_name: n.app_name,
        replaces_id: n.replaces_id,
        app_icon: n.app_icon,
        summary: n.summary,
        body: n.body,
        actions: n.actions,
        expire_timeout: n.expire_timeout,
        urgency: n.urgency.rank() as i32,
        image_path: match n.image_path {
            Some(p) => p,
            None => Seq::empty(),
        },
        progress: match n.progress {
            Some(p) => p,
            None => -1i32,
        },
        image: match n.image_data {
            Some(d) => d,
            None => empty_image_view(),
        },
    }
}

impl OutboundNotification {
    /// Flattens a notification into the wire shape.
    pub fn of_notification(notification: &Notification) -> (r: Self)
        ensures
            r@ == flatten_view(notification@),
    {
        let r = Self {
            app_name: notification.app_name.clone(),
            replaces_id: notification.replaces_id,
            app_icon: notification.app_icon.clone(),
            summary: notification.summary.clone(),
            body: notification.body.clone(),
            actions: clone_strings(&notification.actions),
            expire_timeout: notification.expire_timeout,
            urgency: notification.urgency.to_i32(),
            image_path: match &notification.image_path {
                Some(p) => p.clone(),
                None => String::new(),
            },
            progress: match notification.progress {
                Some(p) => p,
                None => -1,
            },
            image: match &notification.image_data {
                Some(d) => d.clone(),
                None => ImageData::empty(),
            },
        };
        proof {
            assert(r.actions.deep_view() =~= notification.actions.deep_view());
        }
        r
    }
}

/// Whether a notification of the given urgency is still delivered directly
/// while do-not-disturb is in force. With do-not-disturb off everything is;
/// with it on, only urgencies at or above the configured threshold, and a
/// threshold outside `{0, 1, 2}` disables the override entirely.
pub open spec fn spec_should_ignore_dnd(
    dnd_enabled: bool,
    dnd_ignore_threshold: i32,
    urgency: Urgency,
) -> bool {
    if !dnd_enabled {
        true
    } else if !(0 <= dnd_ignore_threshold <= 2) {
        false
    } else {
        urgency.rank() >= dnd_ignore_threshold
    }
}

/// Decides whether this urgency bypasses do-not-disturb.
pub fn urgency_should_ignore_dnd(
    dnd_enabled: bool,
    dnd_ignore_threshold: i32,
    urgency: &Urgency,
) -> (r: bool)
    ensures
        r == spec_should_ignore_dnd(dnd_enabled, dnd_ignore_threshold, *urgency),
{
    if !dnd_enabled {
        return true;
    }
    let necessary_urgency = match dnd_ignore_threshold {
        0 => Some(Urgency::Low),
        1 => Some(Urgency::Normal),
        2 => Some(Urgency::Urgent),
        _ => None,
    };
    match necessary_urgency {
        None => false,
        Some(required) => urgency.to_i32() >= required.to_i32(),
    }
}

/// Gating law: with do-not-disturb off every urgency passes; with it on, a
/// threshold outside `{0, 1, 2}` lets nothing pass, and a threshold inside
/// lets exactly the urgencies at or above it pass.
pub proof fn lemma_dnd_gating(dnd_enabled: bool, dnd_ignore_threshold: i32, urgency: Urgency)
    ensures
        !dnd_enabled ==> spec_should_ignore_dnd(dnd_enabled, dnd_ignore_threshold, urgency),
        dnd_enabled && !(0 <= dnd_ignore_threshold <= 2) ==> !spec_should_ignore_dnd(
            dnd_enabled,
            dnd_ignore_threshold,
            urgency,
        ),
        dnd_enabled && 0 <= dnd_ignore_threshold <= 2 ==> (spec_should_ignore_dnd(
            dnd_enabled,
            dnd_ignore_threshold,
            urgency,
        ) <==> urgency.rank() >= dnd_ignore_threshold),
{
}

/// Where an accepted notification goes: straight to the local renderer, or
/// forwarded to the external notification-center process.
pub enum DeliveryAction {
    Renderer(Notification),
    NotificationCenter(OutboundNotification),
}

/// An outbound signal the broker emits from its own object path.
pub enum Signal {
    ActionInvoked { id: u32, action_key: String },
    NotificationReplied { id: u32, text: String },
}

/// The broker: owns the registry and runs the protocol's decisions. The
/// surrounding process keeps it behind one lock held for the duration of
/// each handler call.
pub struct NotificationServer {
    pub wrapper: NotificationWrapper,
}

impl NotificationServer {
    pub open spec fn wf(&self) -> bool {
        self.wrapper.wf()
    }

    /// A fresh broker over an empty registry.
    pub fn create() -> (r: Self)
        ensures
            r.wf(),
            r.wrapper.as_map() == Map::<u32, NotificationView>::empty(),
            r.wrapper.last_notification_id == 0,
            !r.wrapper.do_not_disturb,
            !r.wrapper.notification_center,
    {
        Self { wrapper: NotificationWrapper::create() }
    }

    /// Handles `Notify`: builds the notification, inserts it into the
    /// registry under its caller-supplied id (replacing any entry there),
    /// runs the gating algorithm, and returns the id to echo back together
    /// with the delivery action to perform. Never fails.
    pub fn notify(
        &mut self,
        app_name: String,
        replaces_id: u32,
        app_icon: String,
        summary: String,
        body: String,
        actions: Vec<String>,
        hints: Vec<(String, HintValue)>,
        expire_timeout: i32,
        dnd_override: i32,
    ) -> (r: (u32, DeliveryAction))
        requires
            old(self).wf(),
        ensures
            final(self).wf(),
            r.0 == replaces_id,
            ({
                let n = created_view(
                    app_name@,
                    replaces_id,
                    app_icon@,
                    summary@,
                    body@,
                    actions.deep_view(),
                    hints@,
                    expire_timeout,
                );
                &&& final(self).wrapper.as_map() == old(self).wrapper.as_map().insert(
                    replaces_id,
                    n,
                )
                &&& final(self).wrapper.last_notification_id == replaces_id
                &&& final(self).wrapper.do_not_disturb == old(self).wrapper.do_not_disturb
                &&& final(self).wrapper.notification_center
                    == old(self).wrapper.notification_center
                &&& if spec_should_ignore_dnd(
                    old(self).wrapper.do_not_disturb,
                    dnd_override,
                    n.urgency,
                ) && !old(self).wrapper.notification_center {
                    r.1 matches DeliveryAction::Renderer(m) && m@ == n
                } else {
                    r.1 matches DeliveryAction::NotificationCenter(o) && o@ == flatten_view(n)
                }
            }),
    {
        let notification = Notification::create(
            app_name,
            replaces_id,
            app_icon,
            summary,
            body,
            actions,
            hints,
            expire_timeout,
        );
        self.wrapper.add_notification(&notification);
        let deliver = urgency_should_ignore_dnd(
            self.wrapper.do_not_disturb,
            dnd_override,
            &notification.urgency,
        ) && !self.wrapper.notification_center;
        if deliver {
            (replaces_id, DeliveryAction::Renderer(notification))
        } else {
            let out = OutboundNotification::of_notification(&notification);
            (replaces_id, DeliveryAction::NotificationCenter(out))
        }
    }

    /// Handles `CloseNotification`: removes the id from the registry and
    /// always answers `"ok"`, whether or not the id was present.
    pub fn close_notification(&mut self, id: u32) -> (r: &'static str)
        requires
            old(self).wf(),
        ensures
            final(self).wf(),
            final(self).wrapper.as_map() == old(self).wrapper.as_map().remove(id),
            final(self).wrapper.last_notification_id == old(self).wrapper.last_notification_id,
            final(self).wrapper.do_not_disturb == old(self).wrapper.do_not_disturb,
            final(self).wrapper.notification_center == old(self).wrapper.notification_center,
            r@ == "ok"@,
    {
        self.wrapper.remove_notification(id);
        "ok"
    }

    /// Handles `GetAllNotifications`: a snapshot of every live notification
    /// in the fixed-arity wire shape, in registry order.
    pub fn get_all_notifications(&self) -> (r: Vec<OutboundNotification>)
        ensures
            r@.len() == self.wrapper.notifications@.len(),
            forall|i: int|
                0 <= i < r@.len() ==> r@[i]@ == flatten_view(
                    self.wrapper.notifications@[i].1@,
                ),
    {
        let snapshot = self.wrapper.get_all_notifications();
        let mut r: Vec<OutboundNotification> = Vec::new();
        let mut i: usize = 0;
        while i < snapshot.len()
            invariant
                i <= snapshot@.len(),
                r@.len() == i,
                forall|j: int|
                    0 <= j < i ==> r@[j]@ == flatten_view(self.wrapper.notifications@[j].1@),
            decreases snapshot@.len() - i,
        {
            r.push(OutboundNotification::of_notification(&snapshot[i]));
            i = i + 1;
        }
        r
    }

    /// Handles `RemoveAllNotifications`: empties the registry and answers
    /// `"ok"`. The flags are untouched, so clearing twice leaves the
    /// registry empty both times.
    pub fn remove_all_notifications(&mut self) -> (r: &'static str)
        ensures
            final(self).wf(),
            final(self).wrapper.as_map() == Map::<u32, NotificationView>::empty(),
            final(self).wrapper.last_notification_id == old(self).wrapper.last_notification_id,
            final(self).wrapper.do_not_disturb == old(self).wrapper.do_not_disturb,
            final(self).wrapper.notification_center == old(self).wrapper.notification_center,
            r@ == "ok"@,
    {
        self.wrapper.clear_all_notifications();
        "ok"
    }

    /// Handles `GetServerInformation`: the static identity tuple of name,
    /// vendor, version and protocol version.
    pub fn get_server_information() -> (r: (
        &'static str,
        &'static str,
        &'static str,
        &'static str,
    ))
        ensures
            r.0@ == "Oxidash"@,
            r.1@ == "dashie"@,
            r.2@ == "0"@,
            r.3@ == "wat"@,
    {
        ("Oxidash", "dashie", "0", "wat")
    }

    /// Handles `DoNotDisturb`: toggles the flag and returns the new state.
    pub fn do_not_disturb(&mut self) -> (r: bool)
        requires
            old(self).wf(),
        ensures
            final(self).wf(),
            r == !old(self).wrapper.do_not_disturb,
            final(self).wrapper.do_not_disturb == r,
            final(self).wrapper.as_map() == old(self).wrapper.as_map(),
            final(self).wrapper.last_notification_id == old(self).wrapper.last_notification_id,
            final(self).wrapper.notification_center == old(self).wrapper.notification_center,
    {
        self.wrapper.toggle_do_not_disturb()
    }

    /// Handles `ToggleNotificationCenter`: toggles the routing flag and
    /// returns the new state.
    pub fn toggle_notification_center(&mut self) -> (r: bool)
        requires
            old(self).wf(),
        ensures
            final(self).wf(),
            r == !old(self).wrapper.notification_center,
            final(self).wrapper.notification_center == r,
            final(self).wrapper.as_map() == old(self).wrapper.as_map(),
            final(self).wrapper.last_notification_id == old(self).wrapper.last_notification_id,
            final(self).wrapper.do_not_disturb == old(self).wrapper.do_not_disturb,
    {
        self.wrapper.toggle_notification_center()
    }

    /// Handles `InvokeAction`: the signal to emit, fire-and-forget.
    pub fn invoke_action(id: u32, action_key: String) -> (r: Signal)
        ensures
            r matches Signal::ActionInvoked { id: i, action_key: a } && i == id && a == action_key,
    {
        Signal::ActionInvoked { id, action_key }
    }

    /// Handles `InlineReply`: the signal to emit, fire-and-forget.
    pub fn inline_reply(id: u32, text: String) -> (r: Signal)
        ensures
            r matches Signal::NotificationReplied { id: i, text: t } && i == id && t == text,
    {
        Signal::NotificationReplied { id, text }
    }
}

/// The fixed capability list: membership is the contract, the order is not.
pub fn get_capabilities() -> (r: Vec<String>)
    ensures
        r@.len() == 7,
        r@[0]@ == "action-icons"@,
        r@[1]@ == "actions"@,
        r@[2]@ == "body-hyprlinks"@,
        r@[3]@ == "body-images"@,
        r@[4]@ == "body-markup"@,
        r@[5]@ == "icon-static"@,
        r@[6]@ == "persistence"@,
{
    let mut r: Vec<String> = Vec::new();
    r.push(String::from_str("action-icons"));
    r.push(String::from_str("actions"));
    r.push(String::from_str("body-hyprlinks"));
    r.push(String::from_str("body-images"));
    r.push(String::from_str("body-markup"));
    r.push(String::from_str("icon-static"));
    r.push(String::from_str("persistence"));
    r
}

} // verus!
