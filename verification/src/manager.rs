use vstd::prelude::*;

use crate::clock::now_ns;
use crate::error::Error;
use crate::monitor::Monitor;

verus! {

/// One registry entry: a monitor stored under a caller-supplied id.
struct JobEntry {
    id: u64,
    monitor: Monitor,
}

/// The mapping that a sequence of entries denotes: later entries shadow
/// earlier ones with the same id (which well-formed registries never hold).
spec fn map_of(s: Seq<JobEntry>) -> Map<u64, Monitor>
    decreases s.len(),
{
    if s.len() == 0 {
        Map::empty()
    } else {
        map_of(s.drop_last()).insert(s.last().id, s.last().monitor)
    }
}

/// Whether the entries of `s` carry pairwise distinct ids.
spec fn ids_unique(s: Seq<JobEntry>) -> bool {
    forall|i: int, j: int| 0 <= i < j < s.len() ==> s[i].id != s[j].id
}

proof fn lemma_drop_last_unique(s: Seq<JobEntry>)
    requires
        s.len() > 0,
        ids_unique(s),
    ensures
        ids_unique(s.drop_last()),
{
}

/// An id is in the denoted map exactly when some entry carries it.
proof fn lemma_map_of_contains(s: Seq<JobEntry>, id: u64)
    ensures
        map_of(s).contains_key(id) <==> exists|j: int| 0 <= j < s.len() && s[j].id == id,
    decreases s.len(),
{
    if s.len() > 0 {
        lemma_map_of_contains(s.drop_last(), id);
        if s.last().id == id {
            assert(s[s.len() - 1].id == id);
        } else {
            if map_of(s).contains_key(id) {
                let j = choose|j: int|
                    0 <= j < s.drop_last().len() && s.drop_last()[j].id == id;
                assert(s[j].id == id);
            }
            if exists|j: int| 0 <= j < s.len() && s[j].id == id {
                let j = choose|j: int| 0 <= j < s.len() && s[j].id == id;
                assert(s.drop_last()[j].id == id);
            }
        }
    }
}

/// Under distinct ids, the entry at index `i` is what the denoted map holds
/// for its id.
proof fn lemma_map_of_index(s: Seq<JobEntry>, i: int)
    requires
        ids_unique(s),
        0 <= i < s.len(),
    ensures
        map_of(s).contains_key(s[i].id),
        map_of(s)[s[i].id] == s[i].monitor,
    decreases s.len(),
{
    if i < s.len() - 1 {
        lemma_drop_last_unique(s);
        lemma_map_of_index(s.drop_last(), i);
        assert(s.last().id != s[i].id);
    }
}

/// Appending an entry denotes inserting it into the map.
proof fn lemma_map_of_push(s: Seq<JobEntry>, e: JobEntry)
    ensures
        map_of(s.push(e)) == map_of(s).insert(e.id, e.monitor),
{
    assert(s.push(e).drop_last() =~= s);
    assert(s.push(e).last() == e);
}

/// Under distinct ids, an entry can be taken out of the sequence and
/// re-inserted into the denoted map without changing it.
proof fn lemma_map_of_remove_insert(s: Seq<JobEntry>, i: int)
    requires
        ids_unique(s),
        0 <= i < s.len(),
    ensures
        map_of(s) =~= map_of(s.remove(i)).insert(s[i].id, s[i].monitor),
    decreases s.len(),
{
    s.remove_ensures(i);
    if i == s.len() - 1 {
        assert(s.remove(i) =~= s.drop_last());
    } else {
        let sd = s.drop_last();
        lemma_drop_last_unique(s);
        sd.remove_ensures(i);
        lemma_map_of_remove_insert(sd, i);
        assert(s.remove(i).drop_last() =~= sd.remove(i));
        assert(s.remove(i).last() == s.last());
        assert(s.last().id != s[i].id);
        assert(sd[i] == s[i]);
        assert(map_of(s.remove(i)) == map_of(sd.remove(i)).insert(
            s.last().id,
            s.last().monitor,
        ));
        assert(map_of(sd.remove(i)).insert(s[i].id, s[i].monitor).insert(
            s.last().id,
            s.last().monitor,
        ) =~= map_of(sd.remove(i)).insert(s.last().id, s.last().monitor).insert(
            s[i].id,
            s[i].monitor,
        ));
    }
}

/// Under distinct ids, removing the entry at index `i` denotes removing its
/// id from the map, and keeps the ids distinct.
proof fn lemma_map_of_remove(s: Seq<JobEntry>, i: int)
    requires
        ids_unique(s),
        0 <= i < s.len(),
    ensures
        ids_unique(s.remove(i)),
        map_of(s.remove(i)) =~= map_of(s).remove(s[i].id),
    decreases s.len(),
{
    s.remove_ensures(i);
    assert forall|a: int, b: int|
        0 <= a < b < s.remove(i).len() implies s.remove(i)[a].id != s.remove(i)[b].id by {
        let a0 = if a < i {
            a
        } else {
            a + 1
        };
        let b0 = if b < i {
            b
        } else {
            b + 1
        };
        assert(s.remove(i)[a] == s[a0] && s.remove(i)[b] == s[b0]);
    }
    lemma_map_of_remove_insert(s, i);
    lemma_map_of_contains(s.remove(i), s[i].id);
    if exists|j: int| 0 <= j < s.remove(i).len() && s.remove(i)[j].id == s[i].id {
        let j = choose|j: int| 0 <= j < s.remove(i).len() && s.remove(i)[j].id == s[i].id;
        let j0 = if j < i {
            j
        } else {
            j + 1
        };
        assert(s[j0].id == s[i].id && j0 != i);
        assert(false);
    }
    assert(map_of(s.remove(i)) =~= map_of(s.remove(i)).insert(s[i].id, s[i].monitor).remove(
        s[i].id,
    ));
}

/// Whether a finish time says its job expired against the cutoff: only a
/// finished job can expire, and only once it finished strictly before the
/// cutoff — a job that has not finished (`None`) never expires, however
/// long it has run.
pub open spec fn is_expired(finished_at: Option<u64>, cutoff: u64) -> bool {
    match finished_at {
        Some(t) => t < cutoff,
        None => false,
    }
}

/// Whether a job that finished at `finished_at` (or has not finished, for
/// `None`) is old enough, against the cutoff time, to be cleaned up.
pub fn expired(finished_at: Option<u64>, cutoff: u64) -> (r: bool)
    ensures
        r == is_expired(finished_at, cutoff),
{
    match finished_at {
        Some(t) => t < cutoff,
        None => false,
    }
}

/// The cleanup cutoff for clock reading `now` and a maximum age: entries
/// that finished strictly before the cutoff are old enough to remove. If
/// the clock has not yet reached `max_age_ns`, nothing can be old enough:
/// there is no cutoff, and a cleanup is a no-op.
pub fn cleanup_cutoff(now: u64, max_age_ns: u64) -> (r: Option<u64>)
    ensures
        r == (if now >= max_age_ns {
            Some((now - max_age_ns) as u64)
        } else {
            None::<u64>
        }),
{
    if now >= max_age_ns {
        Some(now - max_age_ns)
    } else {
        None
    }
}

/// A job manager: a mapping of job ids to the [`Monitor`]s of the jobs
/// started under them.
///
/// The manager continues to store monitors after their jobs finish, by
/// design. Finished jobs can be overwritten with [`start`](Girlboss::start)
/// or cleared with [`cleanup`](Girlboss::cleanup); at most one *running* job
/// is stored per id at any time.
///
/// Its view (`self@`) is the finite map from ids to monitors that it
/// stores.
pub struct Girlboss {
    jobs: Vec<JobEntry>,
}

impl View for Girlboss {
    type V = Map<u64, Monitor>;

    closed spec fn view(&self) -> Map<u64, Monitor> {
        map_of(self.jobs@)
    }
}

impl Girlboss {
    /// Well-formedness: the stored entries carry pairwise distinct ids.
    /// Every method preserves it.
    pub closed spec fn wf(&self) -> bool {
        ids_unique(self.jobs@)
    }

    /// Creates a new empty job manager.
    pub fn new() -> (r: Girlboss)
        ensures
            r.wf(),
            r@ == Map::<u64, Monitor>::empty(),
    {
        Girlboss { jobs: Vec::new() }
    }

    /// The index holding `id`, if any entry does.
    fn find_index(&self, id: u64) -> (r: Option<usize>)
        ensures
            match r {
                Some(i) => i < self.jobs@.len() && self.jobs@[i as int].id == id,
                None => forall|j: int| 0 <= j < self.jobs@.len() ==> self.jobs@[j].id != id,
            },
    {
        let mut i: usize = 0;
        while i < self.jobs.len()
            invariant
                i <= self.jobs@.len(),
                forall|j: int| 0 <= j < i ==> self.jobs@[j].id != id,
            decreases self.jobs@.len() - i,
        {
            if self.jobs[i].id == id {
                return Some(i);
            }
            i = i + 1;
        }
        None
    }

    /// Gets the monitor of a job by its id, or `None` if the id is absent.
    ///
    /// Finished jobs are still returned; see the struct documentation.
    pub fn get(&self, id: u64) -> (r: Option<Monitor>)
        requires
            self.wf(),
        ensures
            r == (if self@.contains_key(id) {
                Some(self@[id])
            } else {
                None::<Monitor>
            }),
    {
        proof {
            lemma_map_of_contains(self.jobs@, id);
        }
        match self.find_index(id) {
            Some(i) => {
                proof {
                    lemma_map_of_index(self.jobs@, i as int);
                }
                Some(self.jobs[i].monitor.clone())
            },
            None => None,
        }
    }

    /// The decision step of [`start`](Girlboss::start), taken after the job
    /// stored under `id` (if any) has been observed: the new job is created
    /// and stored exactly when `id` is free or the observation said the
    /// stored job was finished; the call is rejected — and `f` never
    /// invoked, so no side effect happens — exactly when `id` is taken and
    /// the observation said the stored job was still running.
    pub fn insert_or_replace<F: FnOnce() -> Monitor>(
        &mut self,
        id: u64,
        observed_finished: bool,
        f: F,
    ) -> (r: Result<Monitor, Error>)
        requires
            old(self).wf(),
            call_requires(f, ()),
        ensures
            final(self).wf(),
            (r is Err) <==> (old(self)@.contains_key(id) && !observed_finished),
            (match r {
                Ok(m) => final(self)@ == old(self)@.insert(id, m) && call_ensures(f, (), m),
                Err(e) => e == Error::JobExists && *final(self) == *old(self),
            }),
    {
        proof {
            lemma_map_of_contains(self.jobs@, id);
        }
        match self.find_index(id) {
            None => {
                let ghost pre = self.jobs@;
                let monitor = f();
                let returned = monitor.clone();
                self.jobs.push(JobEntry { id, monitor });
                proof {
                    lemma_map_of_push(pre, JobEntry { id, monitor });
                    assert forall|a: int, b: int|
                        0 <= a < b < self.jobs@.len() implies self.jobs@[a].id
                        != self.jobs@[b].id by {
                        if b < pre.len() as int {
                            assert(self.jobs@[a] == pre[a] && self.jobs@[b] == pre[b]);
                        } else {
                            assert(self.jobs@[a] == pre[a] && self.jobs@[b].id == id);
                        }
                    }
                }
                Ok(returned)
            },
            Some(i) => {
                let ghost pre = self.jobs@;
                if observed_finished {
                    let monitor = f();
                    let returned = monitor.clone();
                    self.jobs.remove(i);
                    self.jobs.push(JobEntry { id, monitor });
                    proof {
                        pre.remove_ensures(i as int);
                        lemma_map_of_remove(pre, i as int);
                        lemma_map_of_remove_insert(pre, i as int);
                        lemma_map_of_push(pre.remove(i as int), JobEntry { id, monitor });
                        assert forall|j: int|
                            0 <= j < pre.remove(i as int).len() implies pre.remove(
                            i as int,
                        )[j].id != id by {
                            let j0 = if j < i as int {
                                j
                            } else {
                                j + 1
                            };
                            assert(pre.remove(i as int)[j] == pre[j0] && j0 != i as int);
                        }
                        assert forall|a: int, b: int|
                            0 <= a < b < self.jobs@.len() implies self.jobs@[a].id
                            != self.jobs@[b].id by {
                            let rem = pre.remove(i as int);
                            if b < rem.len() as int {
                                assert(self.jobs@[a] == rem[a] && self.jobs@[b] == rem[b]);
                            } else {
                                assert(self.jobs@[a] == rem[a] && self.jobs@[b].id == id);
                            }
                        }
                        assert(self@ =~= map_of(pre).insert(id, monitor));
                    }
                    Ok(returned)
                } else {
                    Err(Error::JobExists)
                }
            },
        }
    }

    /// Starts a new job under `id`, the job itself being created by `f`
    /// (which spawns the work and hands back its monitor).
    ///
    /// If no entry holds `id`, or the job stored under `id` is observed
    /// finished, `f` is invoked, its monitor is stored under `id` and
    /// returned. If the stored job is observed still running, `f` is *not*
    /// invoked — no side effect happens — and the call fails with
    /// [`Error::JobExists`], leaving the manager unchanged. The reject-vs-
    /// replace rule over the observation is the contract of
    /// [`insert_or_replace`](Girlboss::insert_or_replace), which this calls
    /// after observing the stored job.
    pub fn start<F: FnOnce() -> Monitor>(&mut self, id: u64, f: F) -> (r: Result<Monitor, Error>)
        requires
            old(self).wf(),
            call_requires(f, ()),
        ensures
            final(self).wf(),
            (match r {
                Ok(m) => final(self)@ == old(self)@.insert(id, m) && call_ensures(f, (), m),
                Err(e) => {
                    &&& e == Error::JobExists
                    &&& *final(self) == *old(self)
                    &&& old(self)@.contains_key(id)
                },
            }),
            !old(self)@.contains_key(id) ==> r is Ok,
    {
        let observed_finished = match self.find_index(id) {
            Some(i) => self.jobs[i].monitor.is_finished(),
            None => false,
        };
        self.insert_or_replace(id, observed_finished, f)
    }

    /// One cleanup step, taken after entry `i`'s finish time has been
    /// observed: removes that entry exactly when `finished_at` says it
    /// expired against `cutoff`, and otherwise changes nothing.
    fn remove_if_expired(&mut self, i: usize, finished_at: Option<u64>, cutoff: u64) -> (removed:
        bool)
        requires
            old(self).wf(),
            i < old(self).jobs@.len(),
        ensures
            final(self).wf(),
            removed == is_expired(finished_at, cutoff),
            removed ==> final(self).jobs@ == old(self).jobs@.remove(i as int) && final(self)@
                == old(self)@.remove(old(self).jobs@[i as int].id),
            !removed ==> *final(self) == *old(self),
    {
        if expired(finished_at, cutoff) {
            let ghost pre = self.jobs@;
            proof {
                lemma_map_of_remove(pre, i as int);
            }
            self.jobs.remove(i);
            true
        } else {
            false
        }
    }

    /// Removes every job that finished at least `max_age_ns` ago; jobs still
    /// running when observed are never touched, and no entry is ever changed
    /// — only removed. With `max_age_ns == 0`, every finished job is
    /// removed. If the clock has not yet reached `max_age_ns`, nothing can
    /// be old enough (see [`cleanup_cutoff`]) and the call is a no-op.
    ///
    /// The per-entry rule — removal exactly when the observed finish time
    /// satisfies [`is_expired`] against the cutoff — is the contract of the
    /// step this loop takes on each entry; only the observations themselves
    /// (the clock and each job's completion cell) are outside it, which is
    /// why this function's own contract says no more than that survivors
    /// are untouched.
    pub fn cleanup(&mut self, max_age_ns: u64)
        requires
            old(self).wf(),
        ensures
            final(self).wf(),
            forall|k: u64| #[trigger]
                final(self)@.contains_key(k) ==> old(self)@.contains_key(k) && final(self)@[k]
                    == old(self)@[k],
    {
        let now = now_ns();
        let cutoff = match cleanup_cutoff(now, max_age_ns) {
            Some(c) => c,
            None => {
                return;
            },
        };
        let ghost orig = self@;
        let mut i: usize = 0;
        while i < self.jobs.len()
            invariant
                self.wf(),
                i <= self.jobs@.len(),
                forall|k: u64| #[trigger]
                    self@.contains_key(k) ==> orig.contains_key(k) && self@[k] == orig[k],
            decreases self.jobs@.len() - i,
        {
            let finished_at = self.jobs[i].monitor.finished_at();
            let ghost pre_iter = *self;
            let ghost key = self.jobs@[i as int].id;
            let removed = self.remove_if_expired(i, finished_at, cutoff);
            if removed {
                proof {
                    assert forall|k: u64| #[trigger]
                        self@.contains_key(k) implies orig.contains_key(k) && self@[k]
                        == orig[k] by {
                        assert(pre_iter@.remove(key).contains_key(k));
                        assert(k != key && pre_iter@.contains_key(k));
                        assert(self@[k] == pre_iter@[k]);
                    }
                }
            } else {
                i = i + 1;
            }
        }
    }
}

impl Default for Girlboss {
    /// The default manager is empty.
    fn default() -> (r: Girlboss)
        ensures
            r.wf(),
            r@ == Map::<u64, Monitor>::empty(),
    {
        Girlboss::new()
    }
}

/// Law: starting a job under an id registers exactly that job there —
/// looking the id up afterwards yields the started job's monitor — and
/// leaves every other id's entry untouched.
pub proof fn lemma_started_job_is_registered(pre: Map<u64, Monitor>, id: u64, m: Monitor)
    ensures
        pre.insert(id, m).contains_key(id),
        pre.insert(id, m)[id] == m,
        forall|k: u64| k != id && pre.contains_key(k) ==> pre.insert(id, m).contains_key(k)
            && pre.insert(id, m)[k] == pre[k],
        forall|k: u64| k != id && !pre.contains_key(k) ==> !pre.insert(id, m).contains_key(k),
{
}

} // verus!
