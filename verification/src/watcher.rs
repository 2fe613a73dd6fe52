use vstd::prelude::*;
use vstd::string::StrSliceExecFns;

verus! {

/// The kind of one filesystem notification.
#[derive(Clone, Copy, Debug, PartialEq, Eq, Structural)]
pub enum WatchKind {
    Create,
    Modify,
    Remove,
    Other,
}

/// One filesystem notification: a kind and the affected paths, each path
/// written with `/` as the separator.
#[derive(Clone, Debug)]
pub struct WatchEvent {
    pub kind: WatchKind,
    pub paths: Vec<String>,
}

/// `.git` stands as a whole path component at position `i` of `p`.
pub open spec fn git_component_at(p: Seq<char>, i: int) -> bool {
    &&& 0 <= i
    &&& i + 4 <= p.len()
    &&& p[i] == '.'
    &&& p[i + 1] == 'g'
    &&& p[i + 2] == 'i'
    &&& p[i + 3] == 't'
    &&& (i == 0 || p[i - 1] == '/')
    &&& (i + 4 == p.len() || p[i + 4] == '/')
}

/// Some component of the path `p` is exactly `.git`.
pub open spec fn has_git_component(p: Seq<char>) -> bool {
    exists|i: int| git_component_at(p, i)
}

/// The final component of `p` has the extension `e`: a dot stands right
/// before the last `e.len()` characters, it is not the first character of
/// that component, and what follows it is exactly `e`.
pub open spec fn has_extension(p: Seq<char>, e: Seq<char>) -> bool {
    exists|i: int|
        {
            &&& 1 <= i
            &&& i + 1 + e.len() == p.len()
            &&& #[trigger] p[i] == '.'
            &&& p[i - 1] != '/'
            &&& p.subrange(i + 1, p.len() as int) == e
        }
}

/// A path is relevant when it lies under a `.git` component or carries one
/// of the source-relevant extensions.
pub open spec fn spec_path_relevant(p: Seq<char>) -> bool {
    ||| has_git_component(p)
    ||| has_extension(p, "rs"@)
    ||| has_extension(p, "toml"@)
    ||| has_extension(p, "md"@)
}

/// An event is relevant when its kind is a create, modify or remove and
/// one of its paths is relevant.
pub open spec fn spec_event_relevant(e: WatchEvent) -> bool {
    &&& (e.kind == WatchKind::Create || e.kind == WatchKind::Modify || e.kind == WatchKind::Remove)
    &&& exists|k: int| 0 <= k < e.paths@.len() && spec_path_relevant(#[trigger] e.paths@[k]@)
}

/// Some event of the sequence is relevant.
pub open spec fn any_relevant(events: Seq<WatchEvent>) -> bool {
    exists|i: int| 0 <= i < events.len() && spec_event_relevant(#[trigger] events[i])
}

fn path_has_git_component(p: &str) -> (r: bool)
    ensures
        r == has_git_component(p@),
{
    let n = p.unicode_len();
    if n < 4 {
        proof {
            assert(forall|i: int| !git_component_at(p@, i));
        }
        return false;
    }
    let mut i: usize = 0;
    while i <= n - 4
        invariant
            n == p@.len(),
            n >= 4,
            i <= n - 3,
            forall|j: int| 0 <= j < i ==> !git_component_at(p@, j),
        decreases n - i,
    {
        let boundary_before = i == 0 || p.get_char(i - 1) == '/';
        let boundary_after = i + 4 == n || p.get_char(i + 4) == '/';
        if boundary_before && boundary_after && p.get_char(i) == '.' && p.get_char(i + 1) == 'g'
            && p.get_char(i + 2) == 'i' && p.get_char(i + 3) == 't' {
            proof {
                assert(git_component_at(p@, i as int));
            }
            return true;
        }
        i = i + 1;
    }
    proof {
        assert(forall|j: int| j > n - 4 ==> !git_component_at(p@, j));
    }
    false
}

fn path_has_extension(p: &str, e: &str) -> (r: bool)
    ensures
        r == has_extension(p@, e@),
{
    let plen = p.unicode_len();
    let elen = e.unicode_len();
    if plen < 2 || elen > plen - 2 {
        return false;
    }
    let i = plen - elen - 1;
    if p.get_char(i) != '.' || p.get_char(i - 1) == '/' {
        return false;
    }
    let mut j: usize = 0;
    while j < elen
        invariant
            plen == p@.len(),
            elen == e@.len(),
            plen >= elen + 2,
            i == plen - elen - 1,
            j <= elen,
            forall|k: int| 0 <= k < j ==> p@[i + 1 + k] == e@[k],
        decreases elen - j,
    {
        if p.get_char(i + 1 + j) != e.get_char(j) {
            proof {
                assert(p@.subrange(i + 1, plen as int)[j as int] == p@[i + 1 + j]);
            }
            return false;
        }
        j = j + 1;
    }
    proof {
        assert(p@.subrange(i + 1, plen as int) =~= e@);
        assert(has_extension(p@, e@)) by {
            assert(p@[i as int] == '.');
        }
    }
    true
}

/// Whether one path is version-control-relevant: under a `.git` component,
/// or carrying a source-relevant extension.
pub fn path_relevant(p: &str) -> (r: bool)
    ensures
        r == spec_path_relevant(p@),
{
    path_has_git_component(p) || path_has_extension(p, "rs") || path_has_extension(p, "toml")
        || path_has_extension(p, "md")
}

/// Whether one event is version-control-relevant.
pub fn is_git_related(event: &WatchEvent) -> (r: bool)
    ensures
        r == spec_event_relevant(*event),
{
    match event.kind {
        WatchKind::Other => {
            return false;
        },
        _ => {},
    }
    proof {
        assert(event.kind == WatchKind::Create || event.kind == WatchKind::Modify
            || event.kind == WatchKind::Remove);
    }
    let mut k: usize = 0;
    while k < event.paths.len()
        invariant
            event.kind == WatchKind::Create || event.kind == WatchKind::Modify
                || event.kind == WatchKind::Remove,
            k <= event.paths@.len(),
            forall|m: int| 0 <= m < k ==> !spec_path_relevant(#[trigger] event.paths@[m]@),
        decreases event.paths@.len() - k,
    {
        if path_relevant(event.paths[k].as_str()) {
            proof {
                assert(spec_path_relevant(event.paths@[k as int]@));
            }
            return true;
        }
        k = k + 1;
    }
    false
}

/// The queue of not-yet-examined filesystem notifications. It is bounded:
/// when a new event arrives at a full queue, the oldest one is dropped.
/// Draining is destructive, so the watcher answers "has anything relevant
/// happened since the last question".
pub struct ChangeWatcher {
    events: Vec<WatchEvent>,
    capacity: usize,
}

impl ChangeWatcher {
    pub closed spec fn events_view(&self) -> Seq<WatchEvent> {
        self.events@
    }

    pub closed spec fn spec_capacity(&self) -> usize {
        self.capacity
    }

    /// The queue never outgrows its bound.
    pub open spec fn wf(&self) -> bool {
        &&& self.spec_capacity() >= 1
        &&& self.events_view().len() <= self.spec_capacity()
    }

    pub fn new(capacity: usize) -> (r: ChangeWatcher)
        requires
            capacity >= 1,
        ensures
            r.wf(),
            r.spec_capacity() == capacity,
            r.events_view() == Seq::<WatchEvent>::empty(),
    {
        ChangeWatcher { events: Vec::new(), capacity }
    }

    /// Queues one notification; at the bound, the oldest queued event is
    /// dropped in favour of the new one.
    pub fn push_event(&mut self, event: WatchEvent)
        requires
            old(self).wf(),
        ensures
            final(self).wf(),
            final(self).spec_capacity() == old(self).spec_capacity(),
            final(self).events_view() == if old(self).events_view().len() < old(self).spec_capacity() {
                old(self).events_view().push(event)
            } else {
                old(self).events_view().subrange(1, old(self).events_view().len() as int).push(event)
            },
    {
        if self.events.len() >= self.capacity {
            let _ = self.events.remove(0);
        }
        self.events.push(event);
    }

    /// Drains the queue and reports whether any drained event was
    /// relevant. Consumption is exactly-once: afterwards the queue is
    /// empty, so a second drain with no new events reports nothing.
    pub fn has_git_changes(&mut self) -> (r: bool)
        requires
            old(self).wf(),
        ensures
            final(self).wf(),
            final(self).spec_capacity() == old(self).spec_capacity(),
            r == any_relevant(old(self).events_view()),
            final(self).events_view() == Seq::<WatchEvent>::empty(),
    {
        let mut found = false;
        let mut i: usize = 0;
        while i < self.events.len()
            invariant
                i <= self.events@.len(),
                found == any_relevant(self.events@.subrange(0, i as int)),
            decreases self.events@.len() - i,
        {
            if is_git_related(&self.events[i]) {
                found = true;
            }
            proof {
                assert(self.events@.subrange(0, i + 1).drop_last() =~= self.events@.subrange(
                    0,
                    i as int,
                ));
                if spec_event_relevant(self.events@[i as int]) {
                    assert(self.events@.subrange(0, i + 1)[i as int] == self.events@[i as int]);
                    assert(any_relevant(self.events@.subrange(0, i + 1)));
                } else {
                    if any_relevant(self.events@.subrange(0, i + 1)) {
                        let w = choose|m: int|
                            0 <= m < i + 1 && spec_event_relevant(
                                #[trigger] self.events@.subrange(0, i + 1)[m],
                            );
                        if w < i {
                            assert(spec_event_relevant(self.events@.subrange(0, i as int)[w]));
                        }
                    }
                }
            }
            i = i + 1;
        }
        proof {
            assert(self.events@.subrange(0, self.events@.len() as int) =~= self.events@);
        }
        self.events.clear();
        found
    }
}

/// No relevant change can be reported from an empty queue: a second drain
/// right after a first one returns false.
pub proof fn lemma_second_drain_reports_nothing(w: ChangeWatcher)
    requires
        w.events_view().len() == 0,
    ensures
        !any_relevant(w.events_view()),
{
}

} // verus!
