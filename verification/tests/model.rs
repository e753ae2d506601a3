//! Tests of the data model: urgency encodings, the image sentinel, and
//! hint decoding in `Notification::create`.

use oxinoti::notification::{HintValue, ImageData, Notification, Urgency};

fn no_hints() -> Vec<(String, HintValue)> {
    Vec::new()
}

fn one_hint(key: &str, value: HintValue) -> Vec<(String, HintValue)> {
    vec![(key.to_string(), value)]
}

fn make(hints: Vec<(String, HintValue)>) -> Notification {
    Notification::create(
        "app".to_string(),
        7,
        "icon".to_string(),
        "Hi".to_string(),
        "Body".to_string(),
        Vec::new(),
        hints,
        5000,
    )
}

#[test]
fn urgency_from_i32_decodes_each_level() {
    assert_eq!(Urgency::from_i32(0), Ok(Urgency::Low));
    assert_eq!(Urgency::from_i32(1), Ok(Urgency::Normal));
    assert_eq!(Urgency::from_i32(2), Ok(Urgency::Urgent));
    assert_eq!(
        Urgency::from_i32(3),
        Err("invalid number, only 1,2 or 3 allowed")
    );
    assert!(Urgency::from_i32(-1).is_err());
}

#[test]
fn urgency_to_i32_roundtrips() {
    for v in 0..3 {
        assert_eq!(Urgency::from_i32(v).unwrap().to_i32(), v);
    }
}

#[test]
fn urgency_to_str_gives_class_names() {
    assert_eq!(Urgency::Low.to_str(), "NotificationLow");
    assert_eq!(Urgency::Normal.to_str(), "NotificationNormal");
    assert_eq!(Urgency::Urgent.to_str(), "NotificationUrgent");
}

#[test]
fn image_data_empty_is_the_sentinel() {
    let e = ImageData::empty();
    assert_eq!(e.width, -1);
    assert_eq!(e.height, -1);
    assert_eq!(e.rowstride, -1);
    assert!(!e.has_alpha);
    assert_eq!(e.bits_per_sample, -1);
    assert_eq!(e.channels, -1);
    assert!(e.data.is_empty());
}

#[test]
fn urgency_defaults_to_low_when_hint_absent() {
    let n = make(no_hints());
    assert_eq!(n.urgency, Urgency::Low);
}

#[test]
fn urgency_defaults_to_low_when_hint_out_of_range() {
    let n = make(one_hint("urgency", HintValue::Int(5)));
    assert_eq!(n.urgency, Urgency::Low);
    let n = make(one_hint("urgency", HintValue::Int(-3)));
    assert_eq!(n.urgency, Urgency::Low);
}

#[test]
fn urgency_defaults_to_low_when_hint_malformed() {
    let n = make(one_hint("urgency", HintValue::Str("high".to_string())));
    assert_eq!(n.urgency, Urgency::Low);
}

#[test]
fn urgency_hint_in_range_is_taken() {
    assert_eq!(make(one_hint("urgency", HintValue::Int(0))).urgency, Urgency::Low);
    assert_eq!(make(one_hint("urgency", HintValue::Int(1))).urgency, Urgency::Normal);
    assert_eq!(make(one_hint("urgency", HintValue::Int(2))).urgency, Urgency::Urgent);
}

#[test]
fn progress_is_clamped_from_above() {
    let n = make(one_hint("progress", HintValue::Int(150)));
    assert_eq!(n.progress, Some(100));
}

#[test]
fn progress_is_clamped_from_below() {
    let n = make(one_hint("progress", HintValue::Int(-7)));
    assert_eq!(n.progress, Some(-1));
}

#[test]
fn progress_in_range_is_kept() {
    let n = make(one_hint("progress", HintValue::Int(42)));
    assert_eq!(n.progress, Some(42));
    let n = make(no_hints());
    assert_eq!(n.progress, None);
}

#[test]
fn progress_malformed_becomes_cleared() {
    let n = make(one_hint("progress", HintValue::Str("half".to_string())));
    assert_eq!(n.progress, Some(-1));
}

#[test]
fn image_path_hint_is_taken_or_defaults() {
    let n = make(one_hint("image-path", HintValue::Str("/tmp/a.png".to_string())));
    assert_eq!(n.image_path, Some("/tmp/a.png".to_string()));
    let n = make(one_hint("image-path", HintValue::Int(4)));
    assert_eq!(n.image_path, Some(String::new()));
    let n = make(no_hints());
    assert_eq!(n.image_path, None);
}

#[test]
fn image_data_hint_is_taken_or_dropped() {
    let img = ImageData {
        width: 2,
        height: 2,
        rowstride: 8,
        has_alpha: true,
        bits_per_sample: 8,
        channels: 4,
        data: vec![1, 2, 3, 4],
    };
    let n = make(one_hint("image-data", HintValue::Image(img)));
    let d = n.image_data.expect("image data should be kept");
    assert_eq!(d.width, 2);
    assert_eq!(d.data, vec![1, 2, 3, 4]);
    let n = make(one_hint("image-data", HintValue::Unsupported));
    assert!(n.image_data.is_none());
}

#[test]
fn unrecognized_hints_are_ignored() {
    let n = make(one_hint("x-custom", HintValue::Int(9)));
    assert_eq!(n.urgency, Urgency::Low);
    assert_eq!(n.progress, None);
    assert_eq!(n.image_path, None);
    assert!(n.image_data.is_none());
    assert_eq!(n.app_name, "app");
    assert_eq!(n.replaces_id, 7);
    assert_eq!(n.summary, "Hi");
    assert_eq!(n.body, "Body");
    assert_eq!(n.expire_timeout, 5000);
}

#[test]
fn first_hint_occurrence_wins() {
    let hints = vec![
        ("urgency".to_string(), HintValue::Int(2)),
        ("urgency".to_string(), HintValue::Int(0)),
    ];
    let n = make(hints);
    assert_eq!(n.urgency, Urgency::Urgent);
}

#[test]
fn has_inline_reply_scans_actions() {
    let mut n = make(no_hints());
    assert!(!n.has_inline_reply());
    n.actions = vec!["default".to_string(), "inline-reply".to_string()];
    assert!(n.has_inline_reply());
}
