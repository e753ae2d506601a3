//! The notification registry: the broker's single source of truth, a mapping
//! from notification id to `Notification` plus the broker-wide flags.

use vstd::prelude::*;
use vstd::pervasive::VecAdditionalExecFns;

use crate::notification::Notification;
use crate::notification::NotificationView;

verus! {

/// No two entries share an id.
pub open spec fn unique_ids(s: Seq<(u32, Notification)>) -> bool {
    forall|i: int, j: int| 0 <= i < j < s.len() ==> s[i].0 != s[j].0
}

/// The mapping that an entry list denotes, later entries overriding earlier
/// ones.
pub open spec fn entries_map(s: Seq<(u32, Notification)>) -> Map<u32, NotificationView>
    decreases s.len(),
{
    if s.len() == 0 {
        Map::empty()
    } else {
        entries_map(s.drop_last()).insert(s.last().0, s.last().1@)
    }
}

/// An id is in the denoted map exactly when some entry carries it.
pub proof fn lemma_entries_map_domain(s: Seq<(u32, Notification)>, id: u32)
    ensures
        entries_map(s).contains_key(id) <==> exists|i: int| 0 <= i < s.len() && s[i].0 == id,
    decreases s.len(),
{
    if s.len() > 0 {
        lemma_entries_map_domain(s.drop_last(), id);
        if entries_map(s).contains_key(id) {
            if s.last().0 == id {
                assert(s[s.len() - 1].0 == id);
            } else {
                let i = choose|i: int| 0 <= i < s.drop_last().len() && s.drop_last()[i].0 == id;
                assert(s[i].0 == id);
            }
        }
        if exists|i: int| 0 <= i < s.len() && s[i].0 == id {
            let i = choose|i: int| 0 <= i < s.len() && s[i].0 == id;
            if i < s.len() - 1 {
                assert(s.drop_last()[i].0 == id);
            }
        }
    }
}

/// With unique ids, the entry carrying an id gives the id's value in the
/// denoted map.
pub proof fn lemma_entries_map_index(s: Seq<(u32, Notification)>, i: int)
    requires
        unique_ids(s),
        0 <= i < s.len(),
    ensures
        entries_map(s).contains_key(s[i].0),
        entries_map(s)[s[i].0] == s[i].1@,
    decreases s.len(),
{
    lemma_entries_map_domain(s, s[i].0);
    if i < s.len() - 1 {
        assert(unique_ids(s.drop_last())) by {
            assert(forall|p: int, q: int|
                0 <= p < q < s.drop_last().len() ==> s.drop_last()[p].0 != s.drop_last()[q].0);
        }
        assert(s.drop_last()[i] == s[i]);
        lemma_entries_map_index(s.drop_last(), i);
        assert(s.last().0 != s[i].0);
    }
}

/// With unique ids, the denoted map has exactly one key per entry.
pub proof fn lemma_entries_map_len(s: Seq<(u32, Notification)>)
    requires
        unique_ids(s),
    ensures
        entries_map(s).dom().finite(),
        entries_map(s).len() == s.len(),
    decreases s.len(),
{
    if s.len() > 0 {
        assert(unique_ids(s.drop_last()));
        lemma_entries_map_len(s.drop_last());
        lemma_entries_map_domain(s.drop_last(), s.last().0);
        assert(forall|i: int| 0 <= i < s.drop_last().len() ==> s.drop_last()[i].0 != s.last().0);
        assert(!entries_map(s.drop_last()).contains_key(s.last().0));
    }
}

/// The registry: notifications keyed by id, the id of the last insertion,
/// and the two broker-wide flags.
pub struct NotificationWrapper {
    pub notifications: Vec<(u32, Notification)>,
    pub last_notification_id: u32,
    pub do_not_disturb: bool,
    pub notification_center: bool,
}

impl NotificationWrapper {
    /// Keys are unique, so the entry list denotes its map faithfully.
    pub open spec fn wf(&self) -> bool {
        unique_ids(self.notifications@)
    }

    /// The mapping from id to notification that this registry holds.
    pub open spec fn as_map(&self) -> Map<u32, NotificationView> {
        entries_map(self.notifications@)
    }

    /// A fresh registry: no notifications, both flags off.
    pub fn create() -> (r: Self)
        ensures
            r.wf(),
            r.as_map() == Map::<u32, NotificationView>::empty(),
            r.last_notification_id == 0,
            !r.do_not_disturb,
            !r.notification_center,
    {
        Self {
            notifications: Vec::new(),
            last_notification_id: 0,
            do_not_disturb: false,
            notification_center: false,
        }
    }

    /// Inserts a copy of the notification under its id, overwriting any
    /// existing entry at that id, and records the id as the last inserted.
    pub fn add_notification(&mut self, notification: &Notification)
        requires
            old(self).wf(),
        ensures
            final(self).wf(),
            final(self).as_map() == old(self).as_map().insert(
                notification.replaces_id,
                notification@,
            ),
            final(self).last_notification_id == notification.replaces_id,
            final(self).do_not_disturb == old(self).do_not_disturb,
            final(self).notification_center == old(self).notification_center,
            old(self).as_map().contains_key(notification.replaces_id) ==> final(self).as_map().len()
                == old(self).as_map().len(),
            !old(self).as_map().contains_key(notification.replaces_id) ==> final(self).as_map().len()
                == old(self).as_map().len() + 1,
    {
        proof {
            lemma_entries_map_len(self.notifications@);
            lemma_entries_map_domain(self.notifications@, notification.replaces_id);
        }
        let id = notification.replaces_id;
        let mut i: usize = 0;
        let ghost s0 = self.notifications@;
        while i < self.notifications.len()
            invariant
                i <= self.notifications@.len(),
                self.notifications@ == s0,
                self.do_not_disturb == old(self).do_not_disturb,
                self.notification_center == old(self).notification_center,
                forall|j: int| 0 <= j < i ==> s0[j].0 != id,
            decreases self.notifications@.len() - i,
        {
            if self.notifications[i].0 == id {
                let entry = (id, notification.clone());
                let ghost e = entry;
                self.notifications.set(i, entry);
                self.last_notification_id = id;
                proof {
                    lemma_update_entry(s0, i as int, e);
                    lemma_entries_map_len(self.notifications@);
                }
                return;
            }
            i = i + 1;
        }
        self.notifications.push((id, notification.clone()));
        self.last_notification_id = id;
        proof {
            assert(self.notifications@.drop_last() =~= s0);
            assert(unique_ids(self.notifications@));
            lemma_entries_map_len(self.notifications@);
        }
    }

    /// Removes the entry at `id`; a no-op when the id is absent.
    pub fn remove_notification(&mut self, id: u32)
        requires
            old(self).wf(),
        ensures
            final(self).wf(),
            final(self).as_map() == old(self).as_map().remove(id),
            final(self).last_notification_id == old(self).last_notification_id,
            final(self).do_not_disturb == old(self).do_not_disturb,
            final(self).notification_center == old(self).notification_center,
    {
        let mut i: usize = 0;
        let ghost s0 = self.notifications@;
        while i < self.notifications.len()
            invariant
                i <= self.notifications@.len(),
                self.notifications@ == s0,
                self.last_notification_id == old(self).last_notification_id,
                self.do_not_disturb == old(self).do_not_disturb,
                self.notification_center == old(self).notification_center,
                forall|j: int| 0 <= j < i ==> s0[j].0 != id,
            decreases self.notifications@.len() - i,
        {
            if self.notifications[i].0 == id {
                self.notifications.remove(i);
                proof {
                    lemma_remove_entry(s0, i as int);
                }
                return;
            }
            i = i + 1;
        }
        proof {
            lemma_entries_map_domain(s0, id);
            assert(!entries_map(s0).contains_key(id));
            assert(entries_map(s0).remove(id) =~= entries_map(s0));
        }
    }

    /// Empties the registry; the flags are untouched.
    pub fn clear_all_notifications(&mut self)
        ensures
            final(self).wf(),
            final(self).as_map() == Map::<u32, NotificationView>::empty(),
            final(self).last_notification_id == old(self).last_notification_id,
            final(self).do_not_disturb == old(self).do_not_disturb,
            final(self).notification_center == old(self).notification_center,
    {
        self.notifications.clear();
    }

    /// A snapshot of all notifications, as copies, in registry order.
    pub fn get_all_notifications(&self) -> (r: Vec<Notification>)
        ensures
            r@.len() == self.notifications@.len(),
            forall|i: int| 0 <= i < r@.len() ==> r@[i]@ == self.notifications@[i].1@,
    {
        let mut notifications: Vec<Notification> = Vec::new();
        let mut i: usize = 0;
        while i < self.notifications.len()
            invariant
                i <= self.notifications@.len(),
                notifications@.len() == i,
                forall|j: int| 0 <= j < i ==> notifications@[j]@ == self.notifications@[j].1@,
            decreases self.notifications@.len() - i,
        {
            notifications.push(self.notifications[i].1.clone());
            i = i + 1;
        }
        notifications
    }

    /// Flips the do-not-disturb flag and returns the new state.
    pub fn toggle_do_not_disturb(&mut self) -> (r: bool)
        ensures
            r == !old(self).do_not_disturb,
            final(self).do_not_disturb == r,
            final(self).notifications@ == old(self).notifications@,
            final(self).last_notification_id == old(self).last_notification_id,
            final(self).notification_center == old(self).notification_center,
    {
        self.do_not_disturb = !self.do_not_disturb;
        self.do_not_disturb
    }

    /// Flips the notification-center routing flag and returns the new state.
    pub fn toggle_notification_center(&mut self) -> (r: bool)
        ensures
            r == !old(self).notification_center,
            final(self).notification_center == r,
            final(self).notifications@ == old(self).notifications@,
            final(self).last_notification_id == old(self).last_notification_id,
            final(self).do_not_disturb == old(self).do_not_disturb,
    {
        self.notification_center = !self.notification_center;
        self.notification_center
    }
}

/// Replacement law: inserting at an id that is already present overwrites
/// that entry in place. The set of ids and the registry size are unchanged,
/// and the id afterwards holds the new content only.
pub proof fn lemma_replacement(m: Map<u32, NotificationView>, id: u32, n: NotificationView)
    requires
        m.contains_key(id),
    ensures
        m.insert(id, n).dom() =~= m.dom(),
        m.insert(id, n).len() == m.len(),
        m.insert(id, n)[id] == n,
{
    assert(m.insert(id, n).dom() =~= m.dom());
}

/// Isolation law: two insertions under distinct ids never interfere. After
/// both, in either order, each id holds exactly the content supplied for it.
pub proof fn lemma_distinct_inserts_commute(
    m: Map<u32, NotificationView>,
    id1: u32,
    n1: NotificationView,
    id2: u32,
    n2: NotificationView,
)
    requires
        id1 != id2,
    ensures
        m.insert(id1, n1).insert(id2, n2)[id1] == n1,
        m.insert(id1, n1).insert(id2, n2)[id2] == n2,
        m.insert(id1, n1).insert(id2, n2) =~= m.insert(id2, n2).insert(id1, n1),
{
}

/// Idempotence law: removing an id that is not present leaves the registry
/// exactly as it was.
pub proof fn lemma_remove_absent_id(m: Map<u32, NotificationView>, id: u32)
    requires
        !m.contains_key(id),
    ensures
        m.remove(id) =~= m,
{
}

/// Replacing the entry at `i` in place, keeping its id, denotes an insert at
/// that id.
proof fn lemma_update_entry(s: Seq<(u32, Notification)>, i: int, e: (u32, Notification))
    requires
        unique_ids(s),
        0 <= i < s.len(),
        e.0 == s[i].0,
    ensures
        unique_ids(s.update(i, e)),
        entries_map(s.update(i, e)) == entries_map(s).insert(e.0, e.1@),
{
    let t = s.update(i, e);
    let k0 = s[i].0;
    assert(forall|j: int| 0 <= j < t.len() ==> #[trigger] t[j].0 == s[j].0);
    assert(unique_ids(t));
    assert(entries_map(t) =~= entries_map(s).insert(k0, e.1@)) by {
        assert forall|k: u32| #[trigger]
            entries_map(t).contains_key(k) implies entries_map(s).insert(
            k0,
            e.1@,
        ).contains_key(k) by {
            lemma_entries_map_domain(t, k);
            let j = choose|j: int| 0 <= j < t.len() && t[j].0 == k;
            lemma_entries_map_domain(s, k);
            assert(s[j].0 == k);
        }
        assert forall|k: u32| #[trigger]
            entries_map(s).insert(k0, e.1@).contains_key(k) implies entries_map(
            t,
        ).contains_key(k) by {
            lemma_entries_map_domain(s, k);
            lemma_entries_map_domain(t, k);
            if k == k0 {
                assert(t[i].0 == k);
            } else {
                let j = choose|j: int| 0 <= j < s.len() && s[j].0 == k;
                assert(t[j].0 == k);
            }
        }
        assert forall|k: u32| #[trigger]
            entries_map(t).contains_key(k) implies entries_map(t)[k] == entries_map(s).insert(
            k0,
            e.1@,
        )[k] by {
            lemma_entries_map_domain(t, k);
            let j = choose|j: int| 0 <= j < t.len() && t[j].0 == k;
            lemma_entries_map_index(t, j);
            if k == k0 {
                assert(j == i) by {
                    if j != i {
                        assert(t[j].0 == s[j].0 && t[i].0 == k0);
                    }
                }
                assert(entries_map(t)[k] == e.1@);
            } else {
                assert(j != i);
                assert(t[j] == s[j]);
                lemma_entries_map_index(s, j);
            }
        }
    }
}

/// Removing the entry at `i` denotes a removal of its id.
proof fn lemma_remove_entry(s: Seq<(u32, Notification)>, i: int)
    requires
        unique_ids(s),
        0 <= i < s.len(),
    ensures
        unique_ids(s.remove(i)),
        entries_map(s.remove(i)) == entries_map(s).remove(s[i].0),
{
    let t = s.remove(i);
    let k0 = s[i].0;
    assert(forall|j: int| 0 <= j < i ==> #[trigger] t[j] == s[j]);
    assert(forall|j: int| i <= j < t.len() ==> #[trigger] t[j] == s[j + 1]);
    assert(unique_ids(t));
    assert(entries_map(t) =~= entries_map(s).remove(k0)) by {
        assert forall|k: u32| #[trigger]
            entries_map(t).contains_key(k) implies entries_map(s).remove(k0).contains_key(k) by {
            lemma_entries_map_domain(t, k);
            let j = choose|j: int| 0 <= j < t.len() && t[j].0 == k;
            let jj = if j < i {
                j
            } else {
                j + 1
            };
            assert(s[jj].0 == k);
            lemma_entries_map_domain(s, k);
            assert(k != k0) by {
                assert(jj != i);
            }
        }
        assert forall|k: u32| #[trigger]
            entries_map(s).remove(k0).contains_key(k) implies entries_map(t).contains_key(k) by {
            lemma_entries_map_domain(s, k);
            let j = choose|j: int| 0 <= j < s.len() && s[j].0 == k;
            assert(j != i);
            let jj = if j < i {
                j
            } else {
                j - 1
            };
            assert(t[jj].0 == k);
            lemma_entries_map_domain(t, k);
        }
        assert forall|k: u32| #[trigger]
            entries_map(t).contains_key(k) implies entries_map(t)[k] == entries_map(s)[k] by {
            lemma_entries_map_domain(t, k);
            let j = choose|j: int| 0 <= j < t.len() && t[j].0 == k;
            lemma_entries_map_index(t, j);
            let jj = if j < i {
                j
            } else {
                j + 1
            };
            assert(s[jj].0 == k);
            lemma_entries_map_index(s, jj);
        }
    }
}

} // verus!
