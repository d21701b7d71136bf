use vstd::prelude::*;

verus! {

/// How long, in milliseconds, an entry may wait for its completion signal
/// before a sweep reclaims it anyway.
pub const STALE_AFTER_MS: u64 = 30000;

/// The in-flight marker of one configuration: when its task was dispatched
/// and whether the task has signalled completion.
#[derive(PartialEq, Eq, Structural, Clone, Copy, Debug)]
pub struct ProcessingEntry {
    pub config_id: i64,
    pub started_at: u64,
    pub done: bool,
}

/// Milliseconds from `started` to `now`, or 0 where the clock reads earlier.
pub open spec fn elapsed(now: u64, started: u64) -> int {
    if now >= started {
        now - started
    } else {
        0
    }
}

/// Whether a sweep at `now` reclaims `e`.
pub open spec fn is_reaped(e: ProcessingEntry, now: u64) -> bool {
    e.done || elapsed(now, e.started_at) > STALE_AFTER_MS
}

/// The last entry of `s` for `id`.
pub open spec fn lookup(s: Seq<ProcessingEntry>, id: i64) -> Option<ProcessingEntry>
    decreases s.len(),
{
    if s.len() == 0 {
        None
    } else if s.last().config_id == id {
        Some(s.last())
    } else {
        lookup(s.drop_last(), id)
    }
}

/// The entries of `s`, in order, that satisfy `p`.
pub open spec fn keep(s: Seq<ProcessingEntry>, p: spec_fn(ProcessingEntry) -> bool) -> Seq<
    ProcessingEntry,
>
    decreases s.len(),
{
    if s.len() == 0 {
        Seq::empty()
    } else if p(s.last()) {
        keep(s.drop_last(), p).push(s.last())
    } else {
        keep(s.drop_last(), p)
    }
}

/// No two entries share a configuration id.
pub open spec fn ids_unique(s: Seq<ProcessingEntry>) -> bool {
    forall|i: int, j: int| 0 <= i < j < s.len() ==> s[i].config_id != s[j].config_id
}

/// The entries of `m` that a sweep at `now` keeps.
pub open spec fn unreaped(m: Map<i64, ProcessingEntry>, now: u64) -> Map<i64, ProcessingEntry> {
    Map::new(|id: i64| m.contains_key(id) && !is_reaped(m[id], now), |id: i64| m[id])
}

/// The entries that `retain_entries` keeps: those of other ids than `id`
/// where one is given, else those that a sweep at `now` keeps.
pub open spec fn retain_pred(id: Option<i64>, now: u64) -> spec_fn(ProcessingEntry) -> bool {
    |e: ProcessingEntry|
        match id {
            Some(x) => e.config_id != x,
            None => !is_reaped(e, now),
        }
}

proof fn lemma_lookup_found(s: Seq<ProcessingEntry>, id: i64)
    ensures
        lookup(s, id) matches Some(e) ==> s.contains(e) && e.config_id == id,
        lookup(s, id) is None ==> forall|i: int| 0 <= i < s.len() ==> s[i].config_id != id,
    decreases s.len(),
{
    if s.len() > 0 {
        lemma_lookup_found(s.drop_last(), id);
        if s.last().config_id != id {
            if let Some(e) = lookup(s, id) {
                let k = choose|k: int| 0 <= k < s.drop_last().len() && s.drop_last()[k] == e;
                assert(s[k] == e);
            } else {
                assert forall|i: int| 0 <= i < s.len() implies s[i].config_id != id by {
                    if i < s.len() - 1 {
                        assert(s.drop_last()[i] == s[i]);
                    }
                }
            }
        } else {
            assert(s[s.len() - 1] == s.last());
        }
    }
}

proof fn lemma_keep_props(s: Seq<ProcessingEntry>, p: spec_fn(ProcessingEntry) -> bool)
    requires
        ids_unique(s),
    ensures
        ids_unique(keep(s, p)),
        forall|e: ProcessingEntry| keep(s, p).contains(e) ==> s.contains(e) && p(e),
        forall|id: i64|
            lookup(keep(s, p), id) == (match lookup(s, id) {
                Some(e) => if p(e) {
                    Some(e)
                } else {
                    None
                },
                None => None,
            }),
    decreases s.len(),
{
    if s.len() > 0 {
        let t = s.drop_last();
        let l = s.last();
        assert(ids_unique(t));
        lemma_keep_props(t, p);
        assert forall|e: ProcessingEntry| t.contains(e) implies e.config_id != l.config_id by {
            let k = choose|k: int| 0 <= k < t.len() && t[k] == e;
            assert(s[k] == e);
        }
        assert forall|e: ProcessingEntry| keep(s, p).contains(e) implies s.contains(e) && p(e) by {
            if keep(s, p).contains(e) {
                if p(l) {
                    let k = choose|k: int| 0 <= k < keep(s, p).len() && keep(s, p)[k] == e;
                    if k < keep(t, p).len() {
                        assert(keep(t, p)[k] == e);
                        assert(keep(t, p).contains(e));
                    } else {
                        assert(s[s.len() - 1] == e);
                    }
                }
                if t.contains(e) {
                    let k = choose|k: int| 0 <= k < t.len() && t[k] == e;
                    assert(s[k] == e);
                }
            }
        }
        if p(l) {
            let ks = keep(s, p);
            assert(ks == keep(t, p).push(l));
            assert forall|i: int, j: int| 0 <= i < j < ks.len() implies ks[i].config_id !=
                    ks[j].config_id by {
                assert(ks[i] == keep(t, p)[i]);
                assert(keep(t, p).contains(keep(t, p)[i]));
                if j < ks.len() - 1 {
                    assert(ks[j] == keep(t, p)[j]);
                } else {
                    assert(ks[j] == l);
                    assert(t.contains(keep(t, p)[i]));
                }
            }
        }
        assert forall|id: i64|
            lookup(keep(s, p), id) == (match lookup(s, id) {
                Some(e) => if p(e) {
                    Some(e)
                } else {
                    None
                },
                None => None,
            }) by {
            assert(s.drop_last() == t);
            if p(l) {
                assert(keep(s, p) == keep(t, p).push(l));
                assert(keep(t, p).push(l).drop_last() =~= keep(t, p));
            } else {
                assert(keep(s, p) == keep(t, p));
            }
            if l.config_id == id && !p(l) {
                lemma_lookup_found(t, id);
                if let Some(e) = lookup(t, id) {
                    assert(t.contains(e));
                }
                assert(lookup(t, id) is None);
                assert(lookup(keep(t, p), id) is None);
                assert(lookup(s, id) == Some(l));
            } else if l.config_id == id {
                assert(lookup(s, id) == Some(l));
                assert(lookup(keep(s, p), id) == Some(l));
            } else {
                assert(lookup(s, id) == lookup(t, id));
                assert(lookup(keep(s, p), id) == lookup(keep(t, p), id));
            }
        }
    }
}

/// The processing registry: at most one in-flight marker per configuration.
#[derive(Debug)]
pub struct ProcessingRegistry {
    pub entries: Vec<ProcessingEntry>,
}

impl ProcessingRegistry {
    pub open spec fn wf(&self) -> bool {
        ids_unique(self.entries@)
    }

    /// The marker of each tracked configuration.
    pub open spec fn view(&self) -> Map<i64, ProcessingEntry> {
        Map::new(
            |id: i64| lookup(self.entries@, id) is Some,
            |id: i64| lookup(self.entries@, id)->0,
        )
    }

    pub fn new() -> (r: ProcessingRegistry)
        ensures
            r.wf(),
            r@ == Map::<i64, ProcessingEntry>::empty(),
    {
        let r = ProcessingRegistry { entries: Vec::new() };
        assert(r@ =~= Map::<i64, ProcessingEntry>::empty());
        r
    }

    /// The number of tracked configurations.
    pub fn len(&self) -> (r: usize)
        ensures
            r == self.entries@.len(),
    {
        self.entries.len()
    }

    /// The marker of `id`, if it is tracked.
    pub fn get(&self, id: i64) -> (r: Option<ProcessingEntry>)
        ensures
            r == lookup(self.entries@, id),
            r matches Some(e) ==> self@.contains_key(id) && self@[id] == e,
            r is None ==> !self@.contains_key(id),
    {
        let mut i: usize = self.entries.len();
        proof {
            assert(self.entries@.subrange(0, i as int) =~= self.entries@);
        }
        while i > 0
            invariant
                i <= self.entries.len(),
                lookup(self.entries@, id) == lookup(self.entries@.subrange(0, i as int), id),
            decreases i,
        {
            let e = self.entries[i - 1];
            proof {
                assert(self.entries@.subrange(0, i as int).drop_last() =~= self.entries@.subrange(0, i - 1));
            }
            if e.config_id == id {
                return Some(e);
            }
            i = i - 1;
        }
        None
    }

    /// Whether `id` has an in-flight marker.
    pub fn is_processing(&self, id: i64) -> (r: bool)
        ensures
            r == self@.contains_key(id),
    {
        self.get(id).is_some()
    }

    /// Keeps the entries that `retain_pred(id, now)` accepts.
    fn retain_entries(&mut self, id: Option<i64>, now: u64)
        requires
            old(self).wf(),
        ensures
            final(self).wf(),
            final(self).entries@ == keep(old(self).entries@, retain_pred(id, now)),
    {
        let ghost p = retain_pred(id, now);
        let mut out: Vec<ProcessingEntry> = Vec::new();
        let mut i: usize = 0;
        while i < self.entries.len()
            invariant
                i <= self.entries.len(),
                out@ == keep(self.entries@.subrange(0, i as int), p),
                p == retain_pred(id, now),
            decreases self.entries.len() - i,
        {
            let e = self.entries[i];
            proof {
                assert(self.entries@.subrange(0, i as int + 1).drop_last() =~=
                        self.entries@.subrange(0, i as int));
            }
            let stays = match id {
                Some(x) => e.config_id != x,
                None => !(e.done || (now >= e.started_at && now - e.started_at > STALE_AFTER_MS)),
            };
            proof {
                match id {
                    Some(x) => assert(p(e) == (e.config_id != x)),
                    None => assert(p(e) == !is_reaped(e, now)),
                }
            }
            if stays {
                out.push(e);
            }
            i = i + 1;
        }
        proof {
            assert(self.entries@.subrange(0, self.entries@.len() as int) =~= self.entries@);
            lemma_keep_props(self.entries@, p);
        }
        self.entries = out;
    }

    /// Stores `e` as the marker of its configuration, replacing any earlier one.
    fn put(&mut self, e: ProcessingEntry)
        requires
            old(self).wf(),
        ensures
            final(self).wf(),
            final(self)@ == old(self)@.insert(e.config_id, e),
    {
        let id = e.config_id;
        let ghost p = retain_pred(Some(id), 0);
        self.retain_entries(Some(id), 0);
        proof {
            lemma_keep_props(old(self).entries@, p);
            lemma_lookup_found(self.entries@, id);
        }
        let ghost before = self.entries@;
        self.entries.push(e);
        proof {
            assert(self.entries@.drop_last() =~= before);
            assert forall|i: int, j: int| 0 <= i < j < self.entries@.len() implies
                self.entries@[i].config_id != self.entries@[j].config_id by {
                if j == self.entries@.len() - 1 {
                    assert(before[i] == self.entries@[i]);
                }
            }
            assert forall|x: i64| lookup(self.entries@, x) == (if x == id {
                Some(e)
            } else {
                lookup(old(self).entries@, x)
            }) by {
                lemma_lookup_found(old(self).entries@, x);
                if x != id {
                    assert(lookup(self.entries@, x) == lookup(before, x));
                }
            }
            assert(self@ =~= old(self)@.insert(id, e));
        }
    }

    /// Records that a task for `id` was dispatched at `now`, replacing any
    /// earlier marker of `id`.
    pub fn register(&mut self, id: i64, now: u64)
        requires
            old(self).wf(),
        ensures
            final(self).wf(),
            final(self)@ == old(self)@.insert(
                id,
                ProcessingEntry { config_id: id, started_at: now, done: false },
            ),
    {
        self.put(ProcessingEntry { config_id: id, started_at: now, done: false });
    }

    /// Records that the task of `id` signalled completion.
    pub fn complete(&mut self, id: i64)
        requires
            old(self).wf(),
        ensures
            final(self).wf(),
            old(self)@.contains_key(id) ==> final(self)@ == old(self)@.insert(
                id,
                ProcessingEntry { done: true, ..old(self)@[id] },
            ),
            !old(self)@.contains_key(id) ==> final(self)@ == old(self)@,
    {
        if let Some(e) = self.get(id) {
            proof {
                lemma_lookup_found(self.entries@, id);
            }
            self.put(ProcessingEntry { config_id: e.config_id, started_at: e.started_at, done: true });
        }
    }

    /// Reclaims every entry whose task signalled completion or that has
    /// waited more than `STALE_AFTER_MS` since dispatch.
    pub fn sweep(&mut self, now: u64)
        requires
            old(self).wf(),
        ensures
            final(self).wf(),
            final(self)@ == unreaped(old(self)@, now),
    {
        let ghost p = retain_pred(None, now);
        self.retain_entries(None, now);
        proof {
            lemma_keep_props(old(self).entries@, p);
            assert(self@ =~= unreaped(old(self)@, now));
        }
    }
}

/// A sweep at `now` removes every entry whose completion signal is set and
/// every entry older than `STALE_AFTER_MS`, and keeps every other entry as it was.
pub proof fn lemma_sweep_reclaims(before: Map<i64, ProcessingEntry>, after: Map<i64,
        ProcessingEntry>, now: u64)
    requires
        after == unreaped(before, now),
    ensures
        forall|id: i64| before.contains_key(id) && before[id].done ==> !after.contains_key(id),
        forall|id: i64|
            before.contains_key(id) && elapsed(now, before[id].started_at) > STALE_AFTER_MS
                ==> !after.contains_key(id),
        forall|id: i64|
            before.contains_key(id) && !before[id].done && elapsed(now, before[id].started_at)
                <= STALE_AFTER_MS ==> after.contains_key(id) && after[id] == before[id],
        forall|id: i64| after.contains_key(id) ==> before.contains_key(id),
{
}

} // verus!
