//! Which notification each rule last showed, so that a rule firing again
//! updates its notification in place.
use crate::cfg::{rule_names, Message};
use crate::notification::{build_notification, buildable, built_from, BuildNotificationError, Payload};
use crate::text::same_text;
use vstd::prelude::*;

verus! {

/// Map from rule name to the identifier of the notification shown for it.
pub struct NotificationIds {
    entries: Vec<(String, u32)>,
}

spec fn entries_map(s: Seq<(String, u32)>) -> Map<Seq<char>, u32>
    decreases s.len(),
{
    if s.len() == 0 {
        Map::empty()
    } else {
        entries_map(s.drop_last()).insert(s.last().0@, s.last().1)
    }
}

spec fn entries_unique(s: Seq<(String, u32)>) -> bool {
    forall|i: int, j: int|
        0 <= i < s.len() && 0 <= j < s.len() && i != j ==> #[trigger] s[i].0@ != #[trigger] s[j].0@
}

proof fn lemma_entries_map(s: Seq<(String, u32)>)
    requires
        entries_unique(s),
    ensures
        forall|n: Seq<char>|
            #[trigger] entries_map(s).contains_key(n) <==> exists|i: int|
                0 <= i < s.len() && #[trigger] s[i].0@ == n,
        forall|i: int| 0 <= i < s.len() ==> #[trigger] entries_map(s)[s[i].0@] == s[i].1,
    decreases s.len(),
{
    if s.len() > 0 {
        let p = s.drop_last();
        assert(entries_unique(p));
        lemma_entries_map(p);
        assert(entries_map(s) == entries_map(p).insert(s.last().0@, s.last().1));
        assert forall|n: Seq<char>|
            #[trigger] entries_map(s).contains_key(n) implies exists|i: int|
                0 <= i < s.len() && #[trigger] s[i].0@ == n by {
            if n != s.last().0@ {
                let i = choose|i: int| 0 <= i < p.len() && #[trigger] p[i].0@ == n;
                assert(s[i] == p[i]);
            } else {
                assert(s[s.len() - 1].0@ == n);
            }
        }
        assert forall|n: Seq<char>|
            (exists|i: int| 0 <= i < s.len() && #[trigger] s[i].0@ == n) implies #[trigger] entries_map(
            s,
        ).contains_key(n) by {
            let i = choose|i: int| 0 <= i < s.len() && #[trigger] s[i].0@ == n;
            if i < s.len() - 1 {
                assert(s[i] == p[i]);
            }
        }
        assert forall|i: int| 0 <= i < s.len() implies #[trigger] entries_map(s)[s[i].0@]
            == s[i].1 by {
            if i < s.len() - 1 {
                assert(s[i] == p[i]);
                assert(s[i].0@ != s[s.len() - 1].0@);
            }
        }
    }
}

/// The identifier the tracker holds for a rule name, if any.
pub open spec fn id_for(ids: Map<Seq<char>, u32>, name: Seq<char>) -> Option<u32> {
    if ids.contains_key(name) {
        Some(ids[name])
    } else {
        None
    }
}

/// The tracker after a notification for `name` was shown and got `id`: a name
/// already tracked keeps its identifier.
pub open spec fn after_shown(ids: Map<Seq<char>, u32>, name: Seq<char>, id: u32) -> Map<
    Seq<char>,
    u32,
> {
    if ids.contains_key(name) {
        ids
    } else {
        ids.insert(name, id)
    }
}

/// The tracker after dropping the names that are no longer configured.
pub open spec fn after_prune(ids: Map<Seq<char>, u32>, names: Set<Seq<char>>) -> Map<
    Seq<char>,
    u32,
> {
    ids.restrict(names)
}

/// A rule shown for the first time under `first` and still configured makes its
/// next notification name `first`, which stays recorded whatever the next show
/// returns. Once the rule leaves the configuration its identifier is dropped: a
/// later match names no earlier notification, and the identifier then returned
/// is recorded.
pub proof fn identity_reuse(
    ids: Map<Seq<char>, u32>,
    name: Seq<char>,
    first: u32,
    second: u32,
    names: Set<Seq<char>>,
    later_names: Set<Seq<char>>,
    fresh: u32,
)
    requires
        !ids.contains_key(name),
        names.contains(name),
        !later_names.contains(name),
    ensures
        id_for(after_prune(after_shown(ids, name, first), names), name) == Some(first),
        id_for(
            after_prune(
                after_shown(after_prune(after_shown(ids, name, first), names), name, second),
                names,
            ),
            name,
        ) == Some(first),
        id_for(
            after_prune(after_prune(after_shown(ids, name, first), names), later_names),
            name,
        ) is None,
        id_for(
            after_shown(
                after_prune(after_prune(after_shown(ids, name, first), names), later_names),
                name,
                fresh,
            ),
            name,
        ) == Some(fresh),
{
}

impl View for NotificationIds {
    type V = Map<Seq<char>, u32>;

    closed spec fn view(&self) -> Map<Seq<char>, u32> {
        entries_map(self.entries@)
    }
}

impl NotificationIds {
    /// Each name is tracked once.
    pub closed spec fn wf(&self) -> bool {
        entries_unique(self.entries@)
    }

    /// An empty tracker.
    pub fn new() -> (r: NotificationIds)
        ensures
            r.wf(),
            r@ == Map::<Seq<char>, u32>::empty(),
    {
        NotificationIds { entries: Vec::new() }
    }

    /// The identifier of the notification last shown for `name`.
    pub fn get(&self, name: &str) -> (r: Option<u32>)
        requires
            self.wf(),
        ensures
            r == id_for(self@, name@),
    {
        let n = self.entries.len();
        let mut i: usize = 0;
        while i < n
            invariant
                n == self.entries@.len(),
                i <= n,
                forall|j: int| 0 <= j < i ==> #[trigger] self.entries@[j].0@ != name@,
                self.wf(),
        decreases n - i,
        {
            if same_text(self.entries[i].0.as_str(), name) {
                proof {
                    lemma_entries_map(self.entries@);
                    assert(self.entries@[i as int].0@ == name@);
                }
                return Some(self.entries[i].1);
            }
            i = i + 1;
        }
        proof {
            lemma_entries_map(self.entries@);
        }
        None
    }

    /// Records the identifier a notification for `name` was shown under,
    /// unless the name already has one.
    pub fn shown(&mut self, name: &String, id: u32)
        requires
            old(self).wf(),
        ensures
            final(self).wf(),
            final(self)@ == after_shown(old(self)@, name@, id),
    {
        proof {
            lemma_entries_map(self.entries@);
        }
        if self.get(name.as_str()).is_none() {
            let ghost before = self.entries@;
            self.entries.push((name.clone(), id));
            proof {
                assert(self.entries@.drop_last() =~= before);
                assert forall|i: int, j: int|
                    0 <= i < self.entries@.len() && 0 <= j < self.entries@.len() && i != j
                        implies #[trigger] self.entries@[i].0@ != #[trigger] self.entries@[j].0@ by {
                    if i < before.len() && j < before.len() {
                        assert(self.entries@[i] == before[i] && self.entries@[j] == before[j]);
                    } else if i < before.len() {
                        assert(self.entries@[i] == before[i]);
                        assert(entries_map(before).contains_key(before[i].0@));
                    } else {
                        assert(self.entries@[j] == before[j]);
                        assert(entries_map(before).contains_key(before[j].0@));
                    }
                }
            }
        }
    }

    /// Drops the names of rules that the configuration no longer holds.
    pub fn prune(&mut self, messages: &Vec<(String, Message)>)
        requires
            old(self).wf(),
        ensures
            final(self).wf(),
            final(self)@ == after_prune(old(self)@, rule_names(messages@)),
    {
        let ghost names = rule_names(messages@);
        let ghost old_entries = self.entries@;
        let mut kept: Vec<(String, u32)> = Vec::new();
        let n = self.entries.len();
        let mut i: usize = 0;
        while i < n
            invariant
                n == self.entries@.len(),
                self.entries@ == old_entries,
                entries_unique(old_entries),
                names == rule_names(messages@),
                i <= n,
                entries_unique(kept@),
                forall|j: int|
                    0 <= j < kept@.len() ==> exists|k: int|
                        0 <= k < i && #[trigger] kept@[j] == old_entries[k],
                entries_map(kept@) == entries_map(old_entries.subrange(0, i as int)).restrict(
                    names,
                ),
            decreases n - i,
        {
            let ghost pre = old_entries.subrange(0, i as int);
            assert(old_entries.subrange(0, i + 1).drop_last() =~= pre);
            if configured(messages, &self.entries[i].0) {
                let ghost before = kept@;
                kept.push((self.entries[i].0.clone(), self.entries[i].1));
                proof {
                    assert(kept@.drop_last() =~= before);
                    assert forall|j: int|
                        0 <= j < kept@.len() implies exists|k: int|
                            0 <= k < i + 1 && #[trigger] kept@[j] == old_entries[k] by {
                        if j < before.len() {
                            assert(kept@[j] == before[j]);
                        } else {
                            assert(kept@[j].0@ == old_entries[i as int].0@);
                        }
                    }
                    assert forall|a: int, b: int|
                        0 <= a < kept@.len() && 0 <= b < kept@.len() && a != b
                            implies #[trigger] kept@[a].0@ != #[trigger] kept@[b].0@ by {
                        if a < before.len() && b < before.len() {
                            assert(kept@[a] == before[a] && kept@[b] == before[b]);
                        } else if a < before.len() {
                            assert(kept@[a] == before[a]);
                            let k = choose|k: int| 0 <= k < i && #[trigger] before[a] == old_entries[k];
                        } else {
                            assert(kept@[b] == before[b]);
                            let k = choose|k: int| 0 <= k < i && #[trigger] before[b] == old_entries[k];
                        }
                    }
                    assert(entries_map(kept@) =~= entries_map(
                        old_entries.subrange(0, i + 1),
                    ).restrict(names));
                }
            } else {
                assert(entries_map(kept@) =~= entries_map(
                    old_entries.subrange(0, i + 1),
                ).restrict(names));
            }
            i = i + 1;
        }
        assert(old_entries.subrange(0, n as int) =~= old_entries);
        self.entries = kept;
    }

    /// Builds the payload of a rule's notification, naming the notification
    /// shown earlier for the same rule, so that it is updated in place.
    pub fn prepare(&self, name: &str, message: &Message, percent: i64) -> (r: Result<
        Payload,
        BuildNotificationError,
    >)
        requires
            self.wf(),
        ensures
            buildable(*message) <==> r is Ok,
            r matches Ok(p) ==> built_from(p, *message, percent as int) && p.id == id_for(
                self@,
                name@,
            ),
    {
        let mut p = build_notification(message, percent)?;
        p.id = self.get(name);
        Ok(p)
    }
}

/// Whether some rule carries the name `name`.
fn configured(messages: &Vec<(String, Message)>, name: &String) -> (r: bool)
    ensures
        r == rule_names(messages@).contains(name@),
{
    let n = messages.len();
    let mut i: usize = 0;
    while i < n
        invariant
            n == messages@.len(),
            i <= n,
            forall|j: int| 0 <= j < i ==> #[trigger] messages@[j].0@ != name@,
        decreases n - i,
    {
        if same_text(messages[i].0.as_str(), name.as_str()) {
            assert(messages@[i as int].0@ == name@);
            return true;
        }
        i = i + 1;
    }
    false
}

} // verus!
