//! The notification data model: urgency levels, inline image payloads, and
//! the `Notification` value object built from a request's typed hints.

use vstd::prelude::*;

verus! {

/// Raw bitmap payload carried inline in a notification when no file path or
/// icon is given.
#[derive(Eq, PartialEq, PartialOrd, Ord)]
pub struct ImageData {
    pub width: i32,
    pub height: i32,
    pub rowstride: i32,
    pub has_alpha: bool,
    pub bits_per_sample: i32,
    pub channels: i32,
    pub data: Vec<u8>,
}

/// Mathematical model of an `ImageData` value.
pub struct ImageDataView {
    pub width: i32,
    pub height: i32,
    pub rowstride: i32,
    pub has_alpha: bool,
    pub bits_per_sample: i32,
    pub channels: i32,
    pub data: Seq<u8>,
}

impl View for ImageData {
    type V = ImageDataView;

    open spec fn view(&self) -> ImageDataView {
        ImageDataView {
            width: self.width,
            height: self.height,
            rowstride: self.rowstride,
            has_alpha: self.has_alpha,
            bits_per_sample: self.bits_per_sample,
            channels: self.channels,
            data: self.data@,
        }
    }
}

/// The sentinel shape that stands for "no inline image" on the wire: all
/// numeric fields `-1`, no alpha, no bytes.
pub open spec fn empty_image_view() -> ImageDataView {
    ImageDataView {
        width: -1i32,
        height: -1i32,
        rowstride: -1i32,
        has_alpha: false,
        bits_per_sample: -1i32,
        channels: -1i32,
        data: Seq::empty(),
    }
}

impl ImageData {
    /// The empty sentinel value used when a notification without inline
    /// image data must still be shaped into the fixed outbound tuple.
    pub fn empty() -> (r: Self)
        ensures
            r@ == empty_image_view(),
    {
        let r = Self {
            width: -1,
            height: -1,
            rowstride: -1,
            has_alpha: false,
            bits_per_sample: -1,
            channels: -1,
            data: Vec::new(),
        };
        proof {
            assert(r@.data =~= empty_image_view().data);
        }
        r
    }

    pub fn clone(&self) -> (r: Self)
        ensures
            r@ == self@,
    {
        let r = Self {
            width: self.width,
            height: self.height,
            rowstride: self.rowstride,
            has_alpha: self.has_alpha,
            bits_per_sample: self.bits_per_sample,
            channels: self.channels,
            data: clone_bytes(&self.data),
        };
        r
    }
}

/// Copies a byte vector element by element.
fn clone_bytes(v: &Vec<u8>) -> (r: Vec<u8>)
    ensures
        r@ == v@,
{
    let mut r: Vec<u8> = Vec::new();
    let mut i: usize = 0;
    while i < v.len()
        invariant
            i <= v.len(),
            r@ =~= v@.subrange(0, i as int),
        decreases v.len() - i,
    {
        r.push(v[i]);
        i = i + 1;
    }
    proof {
        assert(r@ =~= v@);
    }
    r
}

/// Notification urgency, ordered `Low < Normal < Urgent`.
#[derive(Clone, Copy, PartialEq, Eq, PartialOrd, Ord, Structural, Debug)]
pub enum Urgency {
    Low,
    Normal,
    Urgent,
}

impl Urgency {
    /// The protocol integer for each level: `Low = 0`, `Normal = 1`,
    /// `Urgent = 2`. The same encoding is applied in both directions.
    pub open spec fn rank(self) -> int {
        match self {
            Urgency::Low => 0,
            Urgency::Normal => 1,
            Urgency::Urgent => 2,
        }
    }

    /// The display-class string for each level.
    pub open spec fn class_name(self) -> Seq<char> {
        match self {
            Urgency::Low => "NotificationLow"@,
            Urgency::Normal => "NotificationNormal"@,
            Urgency::Urgent => "NotificationUrgent"@,
        }
    }

    /// Decodes a protocol integer; only `0`, `1` and `2` are valid.
    pub fn from_i32(value: i32) -> (r: Result<Urgency, &'static str>)
        ensures
            0 <= value <= 2 ==> (r matches Ok(u) && u.rank() == value),
            !(0 <= value <= 2) ==> (r matches Err(m) && m@
                == "invalid number, only 1,2 or 3 allowed"@),
    {
        match value {
            0 => Ok(Urgency::Low),
            1 => Ok(Urgency::Normal),
            2 => Ok(Urgency::Urgent),
            _ => Err("invalid number, only 1,2 or 3 allowed"),
        }
    }

    /// Encodes this level as its protocol integer.
    pub fn to_i32(&self) -> (r: i32)
        ensures
            r == self.rank(),
    {
        match self {
            Urgency::Low => 0,
            Urgency::Normal => 1,
            Urgency::Urgent => 2,
        }
    }

    /// The CSS-class name the renderer keys off.
    pub fn to_str(&self) -> (r: &str)
        ensures
            r@ == self.class_name(),
    {
        match self {
            Urgency::Low => "NotificationLow",
            Urgency::Normal => "NotificationNormal",
            Urgency::Urgent => "NotificationUrgent",
        }
    }
}

/// One value of the request's untyped hint map, already narrowed to the
/// shapes the broker reads. A hint whose payload fails to decode into one of
/// these shapes arrives as `Unsupported`.
pub enum HintValue {
    Int(i64),
    Str(String),
    Image(ImageData),
    Unsupported,
}

/// The value stored under `key` in a hint list, first occurrence winning.
pub open spec fn hint_lookup(hints: Seq<(String, HintValue)>, key: Seq<char>) -> Option<HintValue>
    decreases hints.len(),
{
    if hints.len() == 0 {
        None
    } else if hints[0].0@ == key {
        Some(hints[0].1)
    } else {
        hint_lookup(hints.drop_first(), key)
    }
}

proof fn lemma_hint_lookup_skip(hints: Seq<(String, HintValue)>, key: Seq<char>, i: int)
    requires
        0 <= i <= hints.len(),
        forall|j: int| 0 <= j < i ==> hints[j].0@ != key,
    ensures
        hint_lookup(hints, key) == hint_lookup(hints.skip(i), key),
    decreases i,
{
    if i > 0 {
        lemma_hint_lookup_skip(hints.drop_first(), key, i - 1);
        assert(hints.drop_first().skip(i - 1) =~= hints.skip(i));
    } else {
        assert(hints.skip(0) =~= hints);
    }
}

/// Looks a key up in the hint list; the first occurrence wins.
pub fn hints_get<'a>(hints: &'a Vec<(String, HintValue)>, key: &String) -> (r: Option<
    &'a HintValue,
>)
    ensures
        match hint_lookup(hints@, key@) {
            Some(v) => r matches Some(rv) && *rv == v,
            None => r is None,
        },
{
    let mut i: usize = 0;
    while i < hints.len()
        invariant
            i <= hints.len(),
            forall|j: int| 0 <= j < i ==> hints@[j].0@ != key@,
        decreases hints.len() - i,
    {
        if hints[i].0 == *key {
            proof {
                lemma_hint_lookup_skip(hints@, key@, i as int);
                assert(hints@.skip(i as int)[0] == hints@[i as int]);
            }
            return Some(&hints[i].1);
        }
        i = i + 1;
    }
    proof {
        lemma_hint_lookup_skip(hints@, key@, hints@.len() as int);
    }
    None
}

/// Urgency taken from the `urgency` hint; absent, malformed or out-of-range
/// values all fall back to `Low`.
pub open spec fn decoded_urgency(hints: Seq<(String, HintValue)>) -> Urgency {
    match hint_lookup(hints, "urgency"@) {
        Some(HintValue::Int(v)) => if 0 <= v <= 2 {
            if v == 0 {
                Urgency::Low
            } else if v == 1 {
                Urgency::Normal
            } else {
                Urgency::Urgent
            }
        } else {
            Urgency::Low
        },
        _ => Urgency::Low,
    }
}

/// Image path taken from the `image-path` hint; a present but non-string
/// payload yields the empty path.
pub open spec fn decoded_image_path(hints: Seq<(String, HintValue)>) -> Option<Seq<char>> {
    match hint_lookup(hints, "image-path"@) {
        Some(HintValue::Str(s)) => Some(s@),
        Some(_) => Some(Seq::empty()),
        None => None,
    }
}

/// Progress values are clamped into `[-1, 100]`; `-1` means "no progress".
pub open spec fn clamp_progress(p: int) -> int {
    if p < -1 {
        -1
    } else if p > 100 {
        100
    } else {
        p
    }
}

/// Progress taken from the `progress` hint, clamped; a present but
/// non-integer payload yields `-1`.
pub open spec fn decoded_progress(hints: Seq<(String, HintValue)>) -> Option<i32> {
    match hint_lookup(hints, "progress"@) {
        Some(HintValue::Int(p)) => Some(clamp_progress(p as int) as i32),
        Some(_) => Some(-1i32),
        None => None,
    }
}

/// Inline image taken from the `image-data` hint; anything but a fully
/// decoded image payload yields no image.
pub open spec fn decoded_image_data(hints: Seq<(String, HintValue)>) -> Option<ImageDataView> {
    match hint_lookup(hints, "image-data"@) {
        Some(HintValue::Image(d)) => Some(d@),
        _ => None,
    }
}

/// Urgency default law: whenever the `urgency` hint is absent, carries no
/// integer, or carries an integer outside `{0, 1, 2}`, the decoded urgency
/// is `Low`.
pub proof fn lemma_urgency_default(hints: Seq<(String, HintValue)>)
    ensures
        hint_lookup(hints, "urgency"@) is None ==> decoded_urgency(hints) == Urgency::Low,
        (hint_lookup(hints, "urgency"@) matches Some(h) && !(h is Int)) ==> decoded_urgency(hints)
            == Urgency::Low,
        (hint_lookup(hints, "urgency"@) matches Some(HintValue::Int(v)) && !(0 <= v <= 2))
            ==> decoded_urgency(hints) == Urgency::Low,
{
}

/// Progress clamping law: a `progress` hint carrying the integer `p` is
/// stored as `p` clamped into `[-1, 100]`; in particular a value already in
/// that range is stored as it is.
pub proof fn lemma_progress_clamped(hints: Seq<(String, HintValue)>, p: i64)
    requires
        hint_lookup(hints, "progress"@) == Some(HintValue::Int(p)),
    ensures
        decoded_progress(hints) == Some(clamp_progress(p as int) as i32),
        -1 <= clamp_progress(p as int) <= 100,
        -1 <= p <= 100 ==> clamp_progress(p as int) == p,
{
}

/// One notification request, immutable after construction.
#[derive(Eq, PartialEq, PartialOrd, Ord)]
pub struct Notification {
    pub app_name: String,
    pub replaces_id: u32,
    pub app_icon: String,
    pub summary: String,
    pub body: String,
    pub actions: Vec<String>,
    pub expire_timeout: i32,
    pub urgency: Urgency,
    pub image_path: Option<String>,
    pub progress: Option<i32>,
    pub image_data: Option<ImageData>,
}

/// Mathematical model of a `Notification` value.
pub struct NotificationView {
    pub app_name: Seq<char>,
    pub replaces_id: u32,
    pub app_icon: Seq<char>,
    pub summary: Seq<char>,
    pub body: Seq<char>,
    pub actions: Seq<Seq<char>>,
    pub expire_timeout: i32,
    pub urgency: Urgency,
    pub image_path: Option<Seq<char>>,
    pub progress: Option<i32>,
    pub image_data: Option<ImageDataView>,
}

impl View for Notification {
    type V = NotificationView;

    open spec fn view(&self) -> NotificationView {
        NotificationView {
            app_name: self.app_name@,
            replaces_id: self.replaces_id,
            app_icon: self.app_icon@,
            summary: self.summary@,
            body: self.body@,
            actions: self.actions.deep_view(),
            expire_timeout: self.expire_timeout,
            urgency: self.urgency,
            image_path: match self.image_path {
                Some(p) => Some(p@),
                None => None,
            },
            progress: self.progress,
            image_data: match self.image_data {
                Some(d) => Some(d@),
                None => None,
            },
        }
    }
}

/// The notification that `Notification::create` builds from a request:
/// the plain arguments are carried over unchanged and the four recognized
/// hints are decoded, every malformed one absorbed into its default.
pub open spec fn created_view(
    app_name: Seq<char>,
    replaces_id: u32,
    app_icon: Seq<char>,
    summary: Seq<char>,
    body: Seq<char>,
    actions: Seq<Seq<char>>,
    hints: Seq<(String, HintValue)>,
    expire_timeout: i32,
) -> NotificationView {
    NotificationView {
        app_name,
        replaces_id,
        app_icon,
        summary,
        body,
        actions,
        expire_timeout,
        urgency: decoded_urgency(hints),
        image_path: decoded_image_path(hints),
        progress: decoded_progress(hints),
        image_data: decoded_image_data(hints),
    }
}

impl Notification {
    /// Builds a notification from a request. Never fails: a hint that is
    /// absent or fails to decode falls back to that field's default.
    pub fn create(
        app_name: String,
        replaces_id: u32,
        app_icon: String,
        summary: String,
        body: String,
        actions: Vec<String>,
        hints: Vec<(String, HintValue)>,
        expire_timeout: i32,
    ) -> (r: Self)
        ensures
            r@ == created_view(
                app_name@,
                replaces_id,
                app_icon@,
                summary@,
                body@,
                actions.deep_view(),
                hints@,
                expire_timeout,
            ),
    {
        let urgency = match hints_get(&hints, &String::from_str("urgency")) {
            Some(h) => match h {
                HintValue::Int(v) => {
                    if 0 <= *v && *v <= 2 {
                        match Urgency::from_i32(*v as i32) {
                            Ok(u) => u,
                            Err(_) => Urgency::Low,
                        }
                    } else {
                        Urgency::Low
                    }
                },
                _ => Urgency::Low,
            },
            None => Urgency::Low,
        };
        let image_path = match hints_get(&hints, &String::from_str("image-path")) {
            Some(h) => match h {
                HintValue::Str(s) => Some(s.clone()),
                _ => Some(String::new()),
            },
            None => None,
        };
        let progress = match hints_get(&hints, &String::from_str("progress")) {
            Some(h) => match h {
                HintValue::Int(p) => {
                    let c: i64 = if *p < -1 {
                        -1
                    } else if *p > 100 {
                        100
                    } else {
                        *p
                    };
                    Some(c as i32)
                },
                _ => Some(-1),
            },
            None => None,
        };
        let image_data = match hints_get(&hints, &String::from_str("image-data")) {
            Some(h) => match h {
                HintValue::Image(d) => Some(d.clone()),
                _ => None,
            },
            None => None,
        };
        Self {
            app_name,
            replaces_id,
            app_icon,
            summary,
            body,
            actions,
            expire_timeout,
            urgency,
            image_path,
            progress,
            image_data,
        }
    }

    /// Whether the request's action list asks for an inline text reply.
    pub fn has_inline_reply(&self) -> (r: bool)
        ensures
            r == exists|i: int|
                0 <= i < self.actions@.len() && self.actions@[i]@ == "inline-reply"@,
    {
        let key = String::from_str("inline-reply");
        let mut i: usize = 0;
        while i < self.actions.len()
            invariant
                i <= self.actions.len(),
                key@ == "inline-reply"@,
                forall|j: int| 0 <= j < i ==> self.actions@[j]@ != "inline-reply"@,
            decreases self.actions.len() - i,
        {
            if self.actions[i] == key {
                return true;
            }
            i = i + 1;
        }
        false
    }

    /// Copies the notification field by field.
    pub fn clone(&self) -> (r: Self)
        ensures
            r@ == self@,
    {
        let r = Self {
            app_name: self.app_name.clone(),
            replaces_id: self.replaces_id,
            app_icon: self.app_icon.clone(),
            summary: self.summary.clone(),
            body: self.body.clone(),
            actions: clone_strings(&self.actions),
            expire_timeout: self.expire_timeout,
            urgency: self.urgency,
            image_path: match &self.image_path {
                Some(p) => Some(p.clone()),
                None => None,
            },
            progress: self.progress,
            image_data: match &self.image_data {
                Some(d) => Some(d.clone()),
                None => None,
            },
        };
        proof {
            assert(r.actions.deep_view() =~= self.actions.deep_view());
        }
        r
    }
}

/// Copies a vector of strings element by element.
pub(crate) fn clone_strings(v: &Vec<String>) -> (r: Vec<String>)
    ensures
        r@.len() == v@.len(),
        forall|i: int| 0 <= i < v@.len() ==> r@[i]@ == v@[i]@,
{
    let mut r: Vec<String> = Vec::new();
    let mut i: usize = 0;
    while i < v.len()
        invariant
            i <= v.len(),
            r@.len() == i,
            forall|j: int| 0 <= j < i ==> r@[j]@ == v@[j]@,
        decreases v.len() - i,
    {
        r.push(v[i].clone());
        i = i + 1;
    }
    r
}

} // verus!
