//! Tests of the broker surface: registry lifecycle, gating, delivery
//! routing, the wire shapes, and the signals.

use oxinoti::notification::{HintValue, Urgency};
use oxinoti::registry::NotificationWrapper;
use oxinoti::server::{
    get_capabilities, urgency_should_ignore_dnd, DeliveryAction, NotificationServer, Signal,
};

fn notify_simple(server: &mut NotificationServer, id: u32, summary: &str) -> (u32, DeliveryAction) {
    server.notify(
        "app".to_string(),
        id,
        "icon".to_string(),
        summary.to_string(),
        "Body".to_string(),
        Vec::new(),
        Vec::new(),
        5000,
        2,
    )
}

#[test]
fn notify_inserts_one_entry_keyed_by_caller_id() {
    let mut server = NotificationServer::create();
    let (id, action) = notify_simple(&mut server, 0, "Hi");
    assert_eq!(id, 0);
    match action {
        DeliveryAction::Renderer(n) => {
            assert_eq!(n.replaces_id, 0);
            assert_eq!(n.urgency, Urgency::Low);
        }
        DeliveryAction::NotificationCenter(_) => panic!("DND is off: expected direct delivery"),
    }
    let all = server.get_all_notifications();
    assert_eq!(all.len(), 1);
    let out = &all[0];
    assert_eq!(out.app_name, "app");
    assert_eq!(out.replaces_id, 0);
    assert_eq!(out.summary, "Hi");
    assert_eq!(out.urgency, 0);
    assert_eq!(out.image_path, "");
    assert_eq!(out.progress, -1);
    assert_eq!(out.image.width, -1);
    assert_eq!(out.image.height, -1);
    assert_eq!(out.image.rowstride, -1);
    assert!(!out.image.has_alpha);
    assert_eq!(out.image.bits_per_sample, -1);
    assert_eq!(out.image.channels, -1);
    assert!(out.image.data.is_empty());
}

#[test]
fn notify_replacing_an_id_keeps_registry_size() {
    let mut server = NotificationServer::create();
    notify_simple(&mut server, 5, "first");
    notify_simple(&mut server, 5, "second");
    let all = server.get_all_notifications();
    assert_eq!(all.len(), 1);
    assert_eq!(all[0].replaces_id, 5);
    assert_eq!(all[0].summary, "second");
}

#[test]
fn notify_with_distinct_ids_keeps_both() {
    let mut server = NotificationServer::create();
    notify_simple(&mut server, 1, "one");
    notify_simple(&mut server, 2, "two");
    let mut all = server.get_all_notifications();
    assert_eq!(all.len(), 2);
    all.sort_by_key(|n| n.replaces_id);
    assert_eq!(all[0].replaces_id, 1);
    assert_eq!(all[0].summary, "one");
    assert_eq!(all[1].replaces_id, 2);
    assert_eq!(all[1].summary, "two");
}

#[test]
fn close_notification_removes_and_tolerates_absent_ids() {
    let mut server = NotificationServer::create();
    notify_simple(&mut server, 1, "one");
    assert_eq!(server.close_notification(1), "ok");
    assert_eq!(server.get_all_notifications().len(), 0);
    assert_eq!(server.close_notification(99), "ok");
    assert_eq!(server.get_all_notifications().len(), 0);
    notify_simple(&mut server, 2, "two");
    assert_eq!(server.close_notification(77), "ok");
    assert_eq!(server.get_all_notifications().len(), 1);
}

#[test]
fn remove_all_notifications_is_idempotent() {
    let mut server = NotificationServer::create();
    notify_simple(&mut server, 1, "one");
    notify_simple(&mut server, 2, "two");
    assert_eq!(server.remove_all_notifications(), "ok");
    assert_eq!(server.get_all_notifications().len(), 0);
    assert_eq!(server.remove_all_notifications(), "ok");
    assert_eq!(server.get_all_notifications().len(), 0);
}

#[test]
fn do_not_disturb_toggles_from_false() {
    let mut server = NotificationServer::create();
    assert!(server.do_not_disturb());
    assert!(!server.do_not_disturb());
    assert!(server.do_not_disturb());
}

#[test]
fn notification_center_toggle_reroutes_delivery() {
    let mut server = NotificationServer::create();
    assert!(server.toggle_notification_center());
    let (_, action) = notify_simple(&mut server, 3, "three");
    match action {
        DeliveryAction::NotificationCenter(out) => {
            assert_eq!(out.replaces_id, 3);
            assert_eq!(out.summary, "three");
        }
        DeliveryAction::Renderer(_) => panic!("routing to the center: expected a forward"),
    }
    assert!(!server.toggle_notification_center());
}

#[test]
fn dnd_suppresses_low_urgency_to_the_center() {
    let mut server = NotificationServer::create();
    server.do_not_disturb();
    let (_, action) = notify_simple(&mut server, 4, "quiet");
    assert!(matches!(action, DeliveryAction::NotificationCenter(_)));
    let urgent = vec![("urgency".to_string(), HintValue::Int(2))];
    let (_, action) = server.notify(
        "app".to_string(),
        5,
        "icon".to_string(),
        "loud".to_string(),
        "Body".to_string(),
        Vec::new(),
        urgent,
        5000,
        2,
    );
    assert!(matches!(action, DeliveryAction::Renderer(_)));
}

#[test]
fn gating_passes_everything_with_dnd_off() {
    for u in [Urgency::Low, Urgency::Normal, Urgency::Urgent] {
        assert!(urgency_should_ignore_dnd(false, 2, &u));
        assert!(urgency_should_ignore_dnd(false, -9, &u));
    }
}

#[test]
fn gating_with_threshold_urgent_passes_only_urgent() {
    assert!(!urgency_should_ignore_dnd(true, 2, &Urgency::Low));
    assert!(!urgency_should_ignore_dnd(true, 2, &Urgency::Normal));
    assert!(urgency_should_ignore_dnd(true, 2, &Urgency::Urgent));
}

#[test]
fn gating_with_threshold_outside_range_passes_nothing() {
    for t in [-1, 3, 7] {
        assert!(!urgency_should_ignore_dnd(true, t, &Urgency::Low));
        assert!(!urgency_should_ignore_dnd(true, t, &Urgency::Normal));
        assert!(!urgency_should_ignore_dnd(true, t, &Urgency::Urgent));
    }
}

#[test]
fn gating_with_low_thresholds_orders_by_urgency() {
    assert!(urgency_should_ignore_dnd(true, 0, &Urgency::Low));
    assert!(urgency_should_ignore_dnd(true, 0, &Urgency::Urgent));
    assert!(!urgency_should_ignore_dnd(true, 1, &Urgency::Low));
    assert!(urgency_should_ignore_dnd(true, 1, &Urgency::Normal));
}

#[test]
fn capabilities_list_is_fixed() {
    let caps = get_capabilities();
    assert_eq!(
        caps,
        vec![
            "action-icons".to_string(),
            "actions".to_string(),
            "body-hyprlinks".to_string(),
            "body-images".to_string(),
            "body-markup".to_string(),
            "icon-static".to_string(),
            "persistence".to_string(),
        ]
    );
}

#[test]
fn server_information_is_static() {
    let (name, vendor, version, spec_version) = NotificationServer::get_server_information();
    assert_eq!(name, "Oxidash");
    assert_eq!(vendor, "dashie");
    assert_eq!(version, "0");
    assert_eq!(spec_version, "wat");
}

#[test]
fn signals_carry_their_payload() {
    match NotificationServer::invoke_action(9, "default".to_string()) {
        Signal::ActionInvoked { id, action_key } => {
            assert_eq!(id, 9);
            assert_eq!(action_key, "default");
        }
        Signal::NotificationReplied { .. } => panic!("wrong signal kind"),
    }
    match NotificationServer::inline_reply(4, "hello".to_string()) {
        Signal::NotificationReplied { id, text } => {
            assert_eq!(id, 4);
            assert_eq!(text, "hello");
        }
        Signal::ActionInvoked { .. } => panic!("wrong signal kind"),
    }
}

#[test]
fn registry_tracks_last_inserted_id_and_flags() {
    let mut w = NotificationWrapper::create();
    assert_eq!(w.last_notification_id, 0);
    assert!(!w.do_not_disturb);
    assert!(!w.notification_center);
    let n = oxinoti::notification::Notification::create(
        "a".to_string(),
        31,
        "i".to_string(),
        "s".to_string(),
        "b".to_string(),
        Vec::new(),
        Vec::new(),
        0,
    );
    w.add_notification(&n);
    assert_eq!(w.last_notification_id, 31);
    assert_eq!(w.get_all_notifications().len(), 1);
    w.remove_notification(31);
    assert_eq!(w.get_all_notifications().len(), 0);
    assert_eq!(w.last_notification_id, 31);
}

#[test]
fn get_all_notifications_carries_present_fields() {
    let mut server = NotificationServer::create();
    let hints = vec![
        ("progress".to_string(), HintValue::Int(40)),
        ("image-path".to_string(), HintValue::Str("/tmp/p.png".to_string())),
        (
            "image-data".to_string(),
            HintValue::Image(oxinoti::notification::ImageData {
                width: 3,
                height: 1,
                rowstride: 12,
                has_alpha: false,
                bits_per_sample: 8,
                channels: 3,
                data: vec![9; 12],
            }),
        ),
    ];
    server.notify(
        "app".to_string(),
        8,
        "icon".to_string(),
        "S".to_string(),
        "B".to_string(),
        vec!["default".to_string(), "Open".to_string()],
        hints,
        -1,
        2,
    );
    let all = server.get_all_notifications();
    assert_eq!(all.len(), 1);
    let out = &all[0];
    assert_eq!(out.progress, 40);
    assert_eq!(out.image_path, "/tmp/p.png");
    assert_eq!(out.actions, vec!["default".to_string(), "Open".to_string()]);
    assert_eq!(out.expire_timeout, -1);
    assert_eq!(out.image.width, 3);
    assert_eq!(out.image.channels, 3);
    assert_eq!(out.image.data, vec![9; 12]);
}

#[test]
fn registry_clear_keeps_flags() {
    let mut w = NotificationWrapper::create();
    w.toggle_do_not_disturb();
    w.clear_all_notifications();
    assert!(w.do_not_disturb);
    assert!(!w.notification_center);
}
