//! A table of jobs and the passes that work across it: picking the next job to claim,
//! recovering expired leases, and finding what cleanup may delete.
use vstd::prelude::*;

use crate::domain::{JobKind, JobStatus};
use crate::lease::{spec_claimed, spec_recovered, JobInfo, JobRecord};
use crate::policy::{admission, spec_admission, Admission, UploadLimit, UploadLimits};
use crate::text::str_equal;
use crate::views::{shows_job, Job, JobPage};

verus! {

/// Whether job `a` comes before job `b` in claim order: earlier availability first, then
/// earlier creation.
pub open spec fn claims_before(a: JobRecord, b: JobRecord) -> bool {
    a.available_at < b.available_at || (a.available_at == b.available_at && a.info.created_at
        <= b.info.created_at)
}

/// The index of the job to claim next at `now`: a claimable job that no other claimable job
/// precedes in claim order (the first such one in the table).
pub fn select_candidate(jobs: &Vec<JobRecord>, now: u64) -> (r: Option<usize>)
    ensures
        match r {
            Some(i) => {
                &&& i < jobs@.len()
                &&& jobs@[i as int].spec_claimable(now)
                &&& forall|j: int|
                    0 <= j < jobs@.len() && (#[trigger] jobs@[j]).spec_claimable(now)
                        ==> claims_before(jobs@[i as int], jobs@[j])
            },
            None => forall|j: int|
                0 <= j < jobs@.len() ==> !(#[trigger] jobs@[j]).spec_claimable(now),
        },
{
    let mut best: Option<usize> = None;
    let mut i: usize = 0;
    while i < jobs.len()
        invariant
            i <= jobs@.len(),
            match best {
                Some(b) => {
                    &&& b < i
                    &&& jobs@[b as int].spec_claimable(now)
                    &&& forall|j: int|
                        0 <= j < i && (#[trigger] jobs@[j]).spec_claimable(now) ==> claims_before(
                            jobs@[b as int],
                            jobs@[j],
                        )
                },
                None => forall|j: int| 0 <= j < i ==> !(#[trigger] jobs@[j]).spec_claimable(now),
            },
        decreases jobs@.len() - i,
    {
        if jobs[i].claimable(now) {
            match best {
                None => {
                    best = Some(i);
                },
                Some(b) => {
                    let earlier = jobs[i].available_at < jobs[b].available_at || (
                    jobs[i].available_at == jobs[b].available_at && jobs[i].info.created_at
                        < jobs[b].info.created_at);
                    if earlier {
                        best = Some(i);
                    }
                },
            }
        }
        i = i + 1;
    }
    best
}

/// Whether `job` was created by session `session_id` under the idempotency key `key`.
pub open spec fn has_key(job: JobRecord, session_id: u128, key: Seq<char>) -> bool {
    &&& job.info.session_id == session_id
    &&& (job.info.idempotency_key matches Some(k) && k@ == key)
}

/// Whether two jobs were created by one session under one idempotency key.
pub open spec fn same_key(x: JobRecord, y: JobRecord) -> bool {
    &&& x.info.session_id == y.info.session_id
    &&& match (x.info.idempotency_key, y.info.idempotency_key) {
        (Some(a), Some(b)) => a@ == b@,
        _ => false,
    }
}

/// No two jobs of a session carry the same idempotency key.
pub open spec fn keys_unique(jobs: Seq<JobRecord>) -> bool {
    forall|a: int, b: int|
        #![trigger jobs[a], jobs[b]]
        0 <= a < b < jobs.len() ==> !same_key(jobs[a], jobs[b])
}

/// Whether a job of the table already answers a request to create `info`: one of the same
/// session under the same idempotency key.
pub open spec fn keyed_match(jobs: Seq<JobRecord>, info: JobInfo) -> bool {
    match info.idempotency_key {
        Some(k) => exists|j: int| 0 <= j < jobs.len() && has_key(#[trigger] jobs[j], info.session_id, k@),
        None => false,
    }
}

/// What a request to create a job was answered.
#[derive(Debug, Clone, Copy, PartialEq, Eq, Structural)]
pub enum Creation {
    /// The session's job under the same idempotency key, at this index; nothing was added.
    Existing(usize),
    /// A quota refused the upload; nothing was added.
    LimitExceeded(UploadLimit),
    /// The new job was appended at this index.
    Created(usize),
}

/// A session never has two jobs under one idempotency key: in a table whose keys are unique,
/// the job that a session and a key name is one job.
pub proof fn lemma_one_job_per_key(
    jobs: Seq<JobRecord>,
    i: int,
    j: int,
    session_id: u128,
    key: Seq<char>,
)
    requires
        keys_unique(jobs),
        0 <= i < jobs.len(),
        0 <= j < jobs.len(),
        has_key(jobs[i], session_id, key),
        has_key(jobs[j], session_id, key),
    ensures
        i == j,
{
    if i < j {
        assert(same_key(jobs[i], jobs[j]));
    } else if j < i {
        assert(same_key(jobs[j], jobs[i]));
    }
}

/// A request repeated under one idempotency key is answered with the job the first request
/// created: the table has a job for it, and the only job of the session under that key is the
/// first one.
pub proof fn lemma_repeated_request_finds_first_job(
    jobs: Seq<JobRecord>,
    i: int,
    first: JobInfo,
    second: JobInfo,
    j: int,
)
    requires
        keys_unique(jobs),
        0 <= i < jobs.len(),
        jobs[i].info == first,
        first.idempotency_key is Some,
        second.session_id == first.session_id,
        second.idempotency_key matches Some(k) && k@ == first.idempotency_key->Some_0@,
    ensures
        keyed_match(jobs, second),
        0 <= j < jobs.len() && has_key(jobs[j], second.session_id, second.idempotency_key->Some_0@)
            ==> j == i,
{
    let k = second.idempotency_key->Some_0;
    assert(has_key(jobs[i], second.session_id, k@));
    if 0 <= j < jobs.len() && has_key(jobs[j], second.session_id, k@) {
        lemma_one_job_per_key(jobs, i, j, second.session_id, k@);
    }
}

/// A table of jobs.
#[derive(Debug)]
pub struct JobQueue {
    pub jobs: Vec<JobRecord>,
}

impl JobQueue {
    pub open spec fn wf(self) -> bool {
        forall|i: int| 0 <= i < self.jobs@.len() ==> (#[trigger] self.jobs@[i]).wf()
    }

    /// Whether every job of the table satisfies its invariant.
    pub fn is_well_formed(&self) -> (b: bool)
        ensures
            b == self.wf(),
    {
        let mut i: usize = 0;
        while i < self.jobs.len()
            invariant
                i <= self.jobs@.len(),
                forall|k: int| 0 <= k < i ==> (#[trigger] self.jobs@[k]).wf(),
            decreases self.jobs@.len() - i,
        {
            if !self.jobs[i].is_well_formed() {
                return false;
            }
            i = i + 1;
        }
        true
    }

    /// The job of session `session_id` created under the idempotency key `key`, if any.
    pub fn find_idempotent_job(&self, session_id: u128, key: &str) -> (r: Option<usize>)
        ensures
            match r {
                Some(i) => i < self.jobs@.len() && has_key(self.jobs@[i as int], session_id, key@),
                None => forall|i: int|
                    0 <= i < self.jobs@.len() ==> !has_key(#[trigger] self.jobs@[i], session_id, key@),
            },
    {
        let mut i: usize = 0;
        while i < self.jobs.len()
            invariant
                i <= self.jobs@.len(),
                forall|j: int| 0 <= j < i ==> !has_key(#[trigger] self.jobs@[j], session_id, key@),
            decreases self.jobs@.len() - i,
        {
            let job = &self.jobs[i];
            if job.info.session_id == session_id {
                let matches_key = match &job.info.idempotency_key {
                    Some(k) => str_equal(k.as_str(), key),
                    None => false,
                };
                if matches_key {
                    return Some(i);
                }
            }
            i = i + 1;
        }
        None
    }

    /// Answers a request to create the job `info` at time `now`: the session's job under the
    /// same idempotency key when there is one; otherwise the admission decision on the recent
    /// upload `counts` and `limits`, and on admission the job is appended, queued.
    pub fn create_job(
        &mut self,
        info: JobInfo,
        now: u64,
        counts: Option<(i64, i64, i64)>,
        limits: Option<UploadLimits>,
    ) -> (r: Creation)
        requires
            old(self).wf(),
            info.max_attempts >= 0,
        ensures
            final(self).wf(),
            keys_unique(old(self).jobs@) ==> keys_unique(final(self).jobs@),
            keyed_match(old(self).jobs@, info) ==> r is Existing,
            match r {
                Creation::Existing(i) => {
                    &&& i < old(self).jobs@.len()
                    &&& (info.idempotency_key matches Some(k) && has_key(
                        old(self).jobs@[i as int],
                        info.session_id,
                        k@,
                    ))
                    &&& final(self).jobs@ == old(self).jobs@
                },
                Creation::LimitExceeded(l) => {
                    &&& !keyed_match(old(self).jobs@, info)
                    &&& spec_admission(false, counts, limits) == Admission::LimitExceeded(l)
                    &&& final(self).jobs@ == old(self).jobs@
                },
                Creation::Created(i) => {
                    &&& !keyed_match(old(self).jobs@, info)
                    &&& spec_admission(false, counts, limits) == Admission::Insert
                    &&& i == old(self).jobs@.len()
                    &&& final(self).jobs@.len() == old(self).jobs@.len() + 1
                    &&& final(self).jobs@.take(i as int) == old(self).jobs@
                    &&& final(self).jobs@[i as int].info == info
                    &&& final(self).jobs@[i as int].status == JobStatus::Queued
                    &&& final(self).jobs@[i as int].available_at == now
                    &&& final(self).jobs@[i as int].attempt_count == 0
                    &&& final(self).jobs@[i as int].attempts@.len() == 0
                },
            },
    {
        let existing = match &info.idempotency_key {
            Some(k) => self.find_idempotent_job(info.session_id, k.as_str()),
            None => None,
        };
        match admission(existing.is_some(), counts, limits) {
            Admission::Existing => {
                let i = existing.unwrap();
                Creation::Existing(i)
            },
            Admission::LimitExceeded(l) => Creation::LimitExceeded(l),
            Admission::Insert => {
                let ghost before = self.jobs@;
                let i = self.jobs.len();
                let job = JobRecord::new_queued(info, now);
                self.jobs.push(job);
                proof {
                    assert(self.jobs@.take(i as int) =~= before);
                    assert forall|j: int| 0 <= j < self.jobs@.len() implies (#[trigger] self.jobs@[j]).wf() by {
                        if j < i {
                            assert(self.jobs@[j] == before[j]);
                        }
                    }
                    if keys_unique(before) {
                        assert forall|a: int, b: int|
                            #![trigger self.jobs@[a], self.jobs@[b]]
                            0 <= a < b < self.jobs@.len() implies !same_key(self.jobs@[a], self.jobs@[b]) by {
                            assert(self.jobs@[a] == before[a]);
                            if b < i {
                                assert(self.jobs@[b] == before[b]);
                            } else {
                                if same_key(self.jobs@[a], self.jobs@[b]) {
                                    let k = self.jobs@[b].info.idempotency_key->Some_0;
                                    assert(has_key(before[a], self.jobs@[b].info.session_id, k@));
                                }
                            }
                        }
                    }
                }
                Creation::Created(i)
            },
        }
    }

    /// Claims the next job for `worker_id` as attempt `attempt_id`; returns its index.
    pub fn claim_next(&mut self, worker_id: &str, attempt_id: u128, now: u64, lease_secs: u64) -> (r:
        Option<usize>)
        requires
            old(self).wf(),
        ensures
            final(self).wf(),
            final(self).jobs@.len() == old(self).jobs@.len(),
            match r {
                Some(i) => {
                    &&& i < old(self).jobs@.len()
                    &&& old(self).jobs@[i as int].spec_claimable(now)
                    &&& forall|j: int|
                        0 <= j < old(self).jobs@.len() && (#[trigger] old(self).jobs@[j]).spec_claimable(
                            now,
                        ) ==> claims_before(old(self).jobs@[i as int], old(self).jobs@[j])
                    &&& spec_claimed(
                        old(self).jobs@[i as int],
                        final(self).jobs@[i as int],
                        worker_id@,
                        attempt_id,
                        now,
                        lease_secs,
                    )
                    &&& forall|j: int|
                        0 <= j < old(self).jobs@.len() && j != i ==> final(self).jobs@[j]
                            == old(self).jobs@[j]
                },
                None => final(self).jobs@ == old(self).jobs@,
            },
            r is None ==> (forall|j: int|
                0 <= j < old(self).jobs@.len() ==> !(#[trigger] old(self).jobs@[j]).spec_claimable(
                    now,
                )) || (exists|i: int|
                0 <= i < old(self).jobs@.len() && (#[trigger] old(self).jobs@[i]).spec_claimable(now)
                    && old(self).jobs@[i].has_attempt_id(attempt_id)),
    {
        let i = match select_candidate(&self.jobs, now) {
            None => {
                return None;
            },
            Some(i) => i,
        };
        let ghost before = self.jobs@;
        let mut job = self.jobs.remove(i);
        let claimed = job.claim(worker_id, attempt_id, now, lease_secs);
        self.jobs.insert(i, job);
        proof {
            assert forall|j: int| 0 <= j < self.jobs@.len() implies (#[trigger] self.jobs@[j]).wf() by {
                if j != i {
                    assert(self.jobs@[j] == before[j]);
                }
            }
            assert forall|j: int|
                0 <= j < before.len() && j != i implies self.jobs@[j] == before[j] by {}
        }
        if claimed {
            Some(i)
        } else {
            proof {
                assert(self.jobs@ =~= before);
                assert(before[i as int].spec_claimable(now));
            }
            None
        }
    }

    /// Recovers every job whose lease ran out before `now`; returns the ids of the jobs that
    /// were being cancelled, in table order, followed by those of the jobs that were running.
    /// Afterwards no job holds an expired lease.
    pub fn recover_expired_leases(&mut self, now: u64, retention_secs: u64) -> (ids: Vec<u128>)
        requires
            old(self).wf(),
        ensures
            final(self).wf(),
            final(self).jobs@.len() == old(self).jobs@.len(),
            forall|j: int|
                0 <= j < final(self).jobs@.len() ==> !(#[trigger] final(self).jobs@[j]).spec_lease_expired(
                    now,
                ),
            forall|j: int|
                0 <= j < old(self).jobs@.len() && !(#[trigger] old(self).jobs@[j]).spec_lease_expired(
                    now,
                ) ==> final(self).jobs@[j] == old(self).jobs@[j],
            forall|j: int|
                0 <= j < old(self).jobs@.len() && (#[trigger] old(self).jobs@[j]).spec_lease_expired(
                    now,
                ) ==> {
                    &&& spec_recovered(
                        old(self).jobs@[j],
                        final(self).jobs@[j],
                        now,
                        retention_secs,
                    )
                    &&& ids@.contains(old(self).jobs@[j].info.id)
                },
            ids@ == expired_ids_in(old(self).jobs@, now, JobStatus::CancelRequested)
                + expired_ids_in(old(self).jobs@, now, JobStatus::Running),
    {
        let ghost before = self.jobs@;
        let mut cancelled: Vec<u128> = Vec::new();
        let mut running: Vec<u128> = Vec::new();
        let mut i: usize = 0;
        while i < self.jobs.len()
            invariant
                i <= self.jobs@.len(),
                cancelled@ == expired_ids_in(before.take(i as int), now, JobStatus::CancelRequested),
                running@ == expired_ids_in(before.take(i as int), now, JobStatus::Running),
                self.jobs@.len() == before.len(),
                forall|j: int| 0 <= j < self.jobs@.len() ==> (#[trigger] self.jobs@[j]).wf(),
                forall|j: int| i <= j < before.len() ==> self.jobs@[j] == before[j],
                forall|j: int| 0 <= j < i ==> !(#[trigger] self.jobs@[j]).spec_lease_expired(now),
                forall|j: int|
                    0 <= j < i && !(#[trigger] before[j]).spec_lease_expired(now) ==> self.jobs@[j]
                        == before[j],
                forall|j: int|
                    0 <= j < i && (#[trigger] before[j]).spec_lease_expired(now) ==> spec_recovered(
                        before[j],
                        self.jobs@[j],
                        now,
                        retention_secs,
                    ),
            decreases before.len() - i,
        {
            let ghost pre = self.jobs@;
            let mut job = self.jobs.remove(i);
            assert(job == before[i as int]);
            let was_cancelling = job.status == JobStatus::CancelRequested;
            let recovered = job.recover_expired_lease(now, retention_secs);
            if recovered {
                if was_cancelling {
                    cancelled.push(job.info.id);
                } else {
                    running.push(job.info.id);
                }
            }
            self.jobs.insert(i, job);
            proof {
                assert forall|j: int| 0 <= j < self.jobs@.len() implies (#[trigger] self.jobs@[j]).wf() by {
                    if j != i {
                        assert(self.jobs@[j] == pre[j]);
                    }
                }
                assert forall|j: int| i + 1 <= j < before.len() implies self.jobs@[j] == before[j] by {
                    assert(self.jobs@[j] == pre[j]);
                }
                assert forall|j: int|
                    0 <= j < i + 1 implies !(#[trigger] self.jobs@[j]).spec_lease_expired(now) by {
                    if j < i {
                        assert(self.jobs@[j] == pre[j]);
                    }
                }
                assert forall|j: int|
                    0 <= j < i + 1 && !(#[trigger] before[j]).spec_lease_expired(now) implies self.jobs@[j]
                        == before[j] by {
                    if j < i {
                        assert(self.jobs@[j] == pre[j]);
                    }
                }
                assert forall|j: int|
                    0 <= j < i + 1 && (#[trigger] before[j]).spec_lease_expired(now) implies spec_recovered(
                        before[j],
                        self.jobs@[j],
                        now,
                        retention_secs,
                    ) by {
                    if j < i {
                        assert(self.jobs@[j] == pre[j]);
                    }
                }
                assert(before.take(i + 1).drop_last() =~= before.take(i as int));
                assert(before.take(i + 1).last() == before[i as int]);
            }
            i = i + 1;
        }
        proof {
            assert(before.take(before.len() as int) =~= before);
        }
        let ghost c = cancelled@;
        let ghost r = running@;
        let mut ids = cancelled;
        let mut rest = running;
        ids.append(&mut rest);
        proof {
            assert forall|j: int|
                0 <= j < before.len() && (#[trigger] before[j]).spec_lease_expired(now) implies ids@.contains(
                    before[j].info.id,
                ) by {
                lemma_expired_ids_in_contains(before, now, before[j].status, j);
                if before[j].status == JobStatus::CancelRequested {
                    let w = choose|w: int| 0 <= w < c.len() && c[w] == before[j].info.id;
                    assert(ids@[w] == c[w]);
                } else {
                    let w = choose|w: int| 0 <= w < r.len() && r[w] == before[j].info.id;
                    assert(ids@[c.len() + w] == r[w]);
                }
            }
        }
        ids
    }

    /// The indices of the jobs whose stored objects are due for deletion at `now`, at most
    /// `limit` of them: those due first (by their due time, then table order), in that order.
    pub fn cleanup_candidates(&self, now: u64, limit: usize) -> (r: Vec<usize>)
        ensures
            r@.len() <= limit,
            forall|k: int| 0 <= k < r@.len() ==> is_candidate(self.jobs@, now, #[trigger] r@[k] as int),
            forall|k1: int, k2: int|
                0 <= k1 < k2 < r@.len() ==> cleanup_before(
                    self.jobs@,
                    #[trigger] r@[k1] as int,
                    #[trigger] r@[k2] as int,
                ),
            forall|i: int|
                #![trigger is_candidate(self.jobs@, now, i)]
                is_candidate(self.jobs@, now, i) && !r@.contains(i as usize) ==> {
                    &&& r@.len() == limit
                    &&& (r@.len() > 0 ==> cleanup_before(self.jobs@, r@.last() as int, i))
                },
    {
        let ghost jobs = self.jobs@;
        let mut r: Vec<usize> = Vec::new();
        let mut done = false;
        while !done && r.len() < limit
            invariant
                jobs == self.jobs@,
                r@.len() <= limit,
                forall|k: int| 0 <= k < r@.len() ==> is_candidate(jobs, now, #[trigger] r@[k] as int),
                forall|k1: int, k2: int|
                    0 <= k1 < k2 < r@.len() ==> cleanup_before(
                        jobs,
                        #[trigger] r@[k1] as int,
                        #[trigger] r@[k2] as int,
                    ),
                forall|i: int|
                    #![trigger is_candidate(jobs, now, i)]
                    is_candidate(jobs, now, i) && !r@.contains(i as usize) ==> (r@.len() == 0
                        || cleanup_before(jobs, r@.last() as int, i)),
                done ==> forall|i: int|
                    #![trigger is_candidate(jobs, now, i)]
                    is_candidate(jobs, now, i) ==> r@.contains(i as usize),
            decreases (limit - r@.len()) * 2 + if done {
                0int
            } else {
                1int
            },
        {
            let mut best: Option<usize> = None;
            let mut i: usize = 0;
            while i < self.jobs.len()
                invariant
                    jobs == self.jobs@,
                    i <= jobs.len(),
                    r@.len() > 0 ==> (r@.last() as int) < jobs.len(),
                    match best {
                        Some(b) => {
                            &&& b < i
                            &&& is_candidate(jobs, now, b as int)
                            &&& follows(jobs, r@, b as int)
                            &&& forall|j: int|
                                #![trigger is_candidate(jobs, now, j)]
                                0 <= j < i && is_candidate(jobs, now, j) && follows(jobs, r@, j)
                                    ==> j == b || cleanup_before(jobs, b as int, j)
                        },
                        None => forall|j: int|
                            #![trigger is_candidate(jobs, now, j)]
                            0 <= j < i && is_candidate(jobs, now, j) ==> !follows(jobs, r@, j),
                    },
                decreases jobs.len() - i,
            {
                if self.jobs[i].is_cleanup_candidate(now) {
                    let after_last = match r.last() {
                        None => true,
                        Some(l) => self.due_before(*l, i),
                    };
                    if after_last {
                        match best {
                            None => {
                                best = Some(i);
                            },
                            Some(b) => {
                                if self.due_before(i, b) {
                                    best = Some(i);
                                }
                            },
                        }
                    }
                }
                i = i + 1;
            }
            match best {
                None => {
                    proof {
                        assert forall|j: int|
                            #![trigger is_candidate(jobs, now, j)]
                            is_candidate(jobs, now, j) implies r@.contains(j as usize) by {
                            if !r@.contains(j as usize) {
                                assert(follows(jobs, r@, j));
                            }
                        }
                    }
                    done = true;
                },
                Some(b) => {
                    let ghost old_r = r@;
                    r.push(b);
                    proof {
                        assert(r@.last() == b);
                        assert forall|k: int| 0 <= k < r@.len() implies is_candidate(
                            jobs,
                            now,
                            #[trigger] r@[k] as int,
                        ) by {
                            if k < old_r.len() {
                                assert(r@[k] == old_r[k]);
                            }
                        }
                        assert forall|k1: int, k2: int|
                            0 <= k1 < k2 < r@.len() implies cleanup_before(
                                jobs,
                                #[trigger] r@[k1] as int,
                                #[trigger] r@[k2] as int,
                            ) by {
                            assert(r@[k1] == old_r[k1]);
                            if k2 < old_r.len() {
                                assert(r@[k2] == old_r[k2]);
                            } else {
                                assert(old_r.len() > 0);
                                if k1 < old_r.len() - 1 {
                                    assert(cleanup_before(jobs, old_r[k1] as int, old_r.last() as int));
                                }
                            }
                        }
                        assert forall|j: int|
                            #![trigger is_candidate(jobs, now, j)]
                            is_candidate(jobs, now, j) && !r@.contains(j as usize) implies cleanup_before(
                                jobs,
                                r@.last() as int,
                                j,
                            ) by {
                            if old_r.contains(j as usize) {
                                let w = choose|w: int| 0 <= w < old_r.len() && old_r[w] == j as usize;
                                assert(r@[w] == old_r[w]);
                            }
                            assert(follows(jobs, old_r, j));
                        }
                    }
                },
            }
        }
        r
    }

    /// The position of the job `id` of session `session_id`, if the table holds it.
    pub fn find_job(&self, session_id: u128, id: u128) -> (r: Option<usize>)
        ensures
            r == find_from(self.jobs@, session_id, id, 0),
            r matches Some(i) ==> i < self.jobs@.len(),
    {
        let n = self.jobs.len();
        proof {
            lemma_find_from_bounds(self.jobs@, session_id, id, 0);
        }
        let mut i: usize = 0;
        while i < n
            invariant
                n == self.jobs@.len(),
                i <= self.jobs@.len(),
                find_from(self.jobs@, session_id, id, i as int) == find_from(
                    self.jobs@,
                    session_id,
                    id,
                    0,
                ),
            decreases self.jobs@.len() - i,
        {
            if self.jobs[i].info.id == id && self.jobs[i].info.session_id == session_id {
                return Some(i);
            }
            i = i + 1;
        }
        None
    }

    /// The jobs of session `session_id` with the given status and kind, newest first, that
    /// come after the job `cursor` (none when that job is not in the session), at most `limit`
    /// of them; the page carries a cursor to the next one when it is full.
    pub fn list_jobs(
        &self,
        session_id: u128,
        status: Option<JobStatus>,
        kind: Option<JobKind>,
        cursor: Option<u128>,
        limit: usize,
    ) -> (p: JobPage)
        ensures
            exists|idx: Seq<usize>|
                #![trigger page_of(self.jobs@, idx, p)]
                listing(self.jobs@, session_id, status, kind, cursor_bound(self.jobs@, session_id, cursor), limit as nat, idx)
                    && page_of(self.jobs@, idx, p),
            p.next_cursor == if p.items@.len() == limit && limit > 0 {
                Some(p.items@.last().id)
            } else {
                None::<u128>
            },
    {
        let bound: Option<Option<(u64, u128)>> = match cursor {
            None => None,
            Some(c) => match self.find_job(session_id, c) {
                Some(i) => Some(Some((self.jobs[i].info.created_at, self.jobs[i].info.id))),
                None => Some(None),
            },
        };
        let idx = self.listing_indices(session_id, status, kind, bound, limit);
        let mut items: Vec<Job> = Vec::new();
        let mut k: usize = 0;
        while k < idx.len()
            invariant
                k <= idx@.len(),
                items@.len() == k,
                forall|m: int| 0 <= m < idx@.len() ==> (#[trigger] idx@[m] as int) < self.jobs@.len(),
                forall|m: int| 0 <= m < k ==> shows_job(#[trigger] items@[m], self.jobs@[idx@[m] as int]),
            decreases idx@.len() - k,
        {
            items.push(self.jobs[idx[k]].view_job());
            k = k + 1;
        }
        let next_cursor = if items.len() == limit && limit > 0 {
            Some(items[items.len() - 1].id)
        } else {
            None
        };
        let p = JobPage { items, next_cursor };
        assert(page_of(self.jobs@, idx@, p));
        p
    }

    /// The positions of the jobs listed: see [`JobQueue::list_jobs`].
    fn listing_indices(
        &self,
        session_id: u128,
        status: Option<JobStatus>,
        kind: Option<JobKind>,
        bound: Option<Option<(u64, u128)>>,
        limit: usize,
    ) -> (r: Vec<usize>)
        ensures
            listing(self.jobs@, session_id, status, kind, bound, limit as nat, r@),
    {
        let ghost jobs = self.jobs@;
        let mut r: Vec<usize> = Vec::new();
        let mut done = false;
        while !done && r.len() < limit
            invariant
                jobs == self.jobs@,
                r@.len() <= limit,
                forall|k: int|
                    0 <= k < r@.len() ==> listed(jobs, session_id, status, kind, bound, #[trigger] r@[k] as int),
                forall|k1: int, k2: int|
                    0 <= k1 < k2 < r@.len() ==> newer(
                        jobs,
                        #[trigger] r@[k1] as int,
                        #[trigger] r@[k2] as int,
                    ),
                forall|i: int|
                    #![trigger listed(jobs, session_id, status, kind, bound, i)]
                    listed(jobs, session_id, status, kind, bound, i) && !r@.contains(i as usize)
                        ==> (r@.len() == 0 || newer(jobs, r@.last() as int, i)),
                done ==> forall|i: int|
                    #![trigger listed(jobs, session_id, status, kind, bound, i)]
                    listed(jobs, session_id, status, kind, bound, i) ==> r@.contains(i as usize),
            decreases (limit - r@.len()) * 2 + if done {
                0int
            } else {
                1int
            },
        {
            let mut best: Option<usize> = None;
            let mut i: usize = 0;
            while i < self.jobs.len()
                invariant
                    jobs == self.jobs@,
                    i <= jobs.len(),
                    r@.len() > 0 ==> (r@.last() as int) < jobs.len(),
                    match best {
                        Some(b) => {
                            &&& b < i
                            &&& listed(jobs, session_id, status, kind, bound, b as int)
                            &&& (r@.len() == 0 || newer(jobs, r@.last() as int, b as int))
                            &&& forall|j: int|
                                #![trigger listed(jobs, session_id, status, kind, bound, j)]
                                0 <= j < i && listed(jobs, session_id, status, kind, bound, j) && (
                                r@.len() == 0 || newer(jobs, r@.last() as int, j)) ==> j == b
                                    || newer(jobs, b as int, j)
                        },
                        None => forall|j: int|
                            #![trigger listed(jobs, session_id, status, kind, bound, j)]
                            0 <= j < i && listed(jobs, session_id, status, kind, bound, j) ==> !(
                            r@.len() == 0 || newer(jobs, r@.last() as int, j)),
                    },
                decreases jobs.len() - i,
            {
                if self.is_listed(i, session_id, status, kind, bound) {
                    let after_last = match r.last() {
                        None => true,
                        Some(l) => self.is_newer(*l, i),
                    };
                    if after_last {
                        match best {
                            None => {
                                best = Some(i);
                            },
                            Some(b) => {
                                if self.is_newer(i, b) {
                                    best = Some(i);
                                }
                            },
                        }
                    }
                }
                i = i + 1;
            }
            match best {
                None => {
                    proof {
                        assert forall|j: int|
                            #![trigger listed(jobs, session_id, status, kind, bound, j)]
                            listed(jobs, session_id, status, kind, bound, j) implies r@.contains(
                                j as usize,
                            ) by {
                            if !r@.contains(j as usize) {
                                assert(r@.len() == 0 || newer(jobs, r@.last() as int, j));
                            }
                        }
                    }
                    done = true;
                },
                Some(b) => {
                    let ghost old_r = r@;
                    r.push(b);
                    proof {
                        assert(r@.last() == b);
                        assert forall|k: int| 0 <= k < r@.len() implies listed(
                            jobs,
                            session_id,
                            status,
                            kind,
                            bound,
                            #[trigger] r@[k] as int,
                        ) by {
                            if k < old_r.len() {
                                assert(r@[k] == old_r[k]);
                            }
                        }
                        assert forall|k1: int, k2: int|
                            0 <= k1 < k2 < r@.len() implies newer(
                                jobs,
                                #[trigger] r@[k1] as int,
                                #[trigger] r@[k2] as int,
                            ) by {
                            assert(r@[k1] == old_r[k1]);
                            if k2 < old_r.len() {
                                assert(r@[k2] == old_r[k2]);
                            } else {
                                if k1 < old_r.len() - 1 {
                                    assert(newer(jobs, old_r[k1] as int, old_r.last() as int));
                                }
                            }
                        }
                        assert forall|j: int|
                            #![trigger listed(jobs, session_id, status, kind, bound, j)]
                            listed(jobs, session_id, status, kind, bound, j) && !r@.contains(
                                j as usize,
                            ) implies newer(jobs, r@.last() as int, j) by {
                            if old_r.contains(j as usize) {
                                let w = choose|w: int| 0 <= w < old_r.len() && old_r[w] == j as usize;
                                assert(r@[w] == old_r[w]);
                            }
                            assert(old_r.len() == 0 || newer(jobs, old_r.last() as int, j));
                        }
                    }
                },
            }
        }
        r
    }

    fn is_listed(
        &self,
        i: usize,
        session_id: u128,
        status: Option<JobStatus>,
        kind: Option<JobKind>,
        bound: Option<Option<(u64, u128)>>,
    ) -> (b: bool)
        requires
            i < self.jobs@.len(),
        ensures
            b == listed(self.jobs@, session_id, status, kind, bound, i as int),
    {
        let job = &self.jobs[i];
        let status_ok = match status {
            Some(s) => job.status == s,
            None => true,
        };
        let kind_ok = match kind {
            Some(k) => job.info.kind == k,
            None => true,
        };
        let bound_ok = match bound {
            None => true,
            Some(None) => false,
            Some(Some((t, id))) => job.info.created_at < t || (job.info.created_at == t
                && job.info.id < id),
        };
        job.info.session_id == session_id && status_ok && kind_ok && bound_ok
    }

    fn is_newer(&self, a: usize, b: usize) -> (x: bool)
        requires
            a < self.jobs@.len(),
            b < self.jobs@.len(),
        ensures
            x == newer(self.jobs@, a as int, b as int),
    {
        let ja = &self.jobs[a];
        let jb = &self.jobs[b];
        ja.info.created_at > jb.info.created_at || (ja.info.created_at == jb.info.created_at && (
        ja.info.id > jb.info.id || (ja.info.id == jb.info.id && a < b)))
    }

    /// Whether job `a` is due for cleanup before job `b`.
    fn due_before(&self, a: usize, b: usize) -> (x: bool)
        requires
            a < self.jobs@.len(),
            b < self.jobs@.len(),
        ensures
            x == cleanup_before(self.jobs@, a as int, b as int),
    {
        let da = match self.jobs[a].artifacts_expire_at {
            Some(t) => t,
            None => self.jobs[a].info.metadata_expire_at,
        };
        let db = match self.jobs[b].artifacts_expire_at {
            Some(t) => t,
            None => self.jobs[b].info.metadata_expire_at,
        };
        da < db || (da == db && a < b)
    }
}

/// When the objects of a job are due for deletion: when its artifacts expire, or else when its
/// record does.
pub open spec fn cleanup_due(job: JobRecord) -> u64 {
    match job.artifacts_expire_at {
        Some(t) => t,
        None => job.info.metadata_expire_at,
    }
}

/// Whether job `a` of the table is cleaned up before job `b`: it is due earlier, or at the same
/// time and comes first in the table.
pub open spec fn cleanup_before(jobs: Seq<JobRecord>, a: int, b: int) -> bool {
    cleanup_due(jobs[a]) < cleanup_due(jobs[b]) || (cleanup_due(jobs[a]) == cleanup_due(jobs[b])
        && a < b)
}

/// Whether job `i` of the table is due for cleanup at `now`.
pub open spec fn is_candidate(jobs: Seq<JobRecord>, now: u64, i: int) -> bool {
    0 <= i < jobs.len() && jobs[i].is_cleanup_candidate_spec(now)
}

/// Whether job `j` comes after every job already chosen in `chosen`.
pub open spec fn follows(jobs: Seq<JobRecord>, chosen: Seq<usize>, j: int) -> bool {
    chosen.len() == 0 || cleanup_before(jobs, chosen.last() as int, j)
}

/// The ids of the jobs of `jobs` in status `status` whose lease expired before `now`, in order.
pub open spec fn expired_ids_in(jobs: Seq<JobRecord>, now: u64, status: JobStatus) -> Seq<u128>
    decreases jobs.len(),
{
    if jobs.len() == 0 {
        Seq::empty()
    } else if jobs.last().spec_lease_expired(now) && jobs.last().status == status {
        expired_ids_in(jobs.drop_last(), now, status).push(jobs.last().info.id)
    } else {
        expired_ids_in(jobs.drop_last(), now, status)
    }
}

/// Claims never share a job: once a claim has taken job `i`, a later claim, at any time and
/// by any worker, finds that job not claimable and so takes another one.
pub proof fn lemma_claims_take_distinct_jobs(
    before: Seq<JobRecord>,
    after: Seq<JobRecord>,
    i: int,
    j: int,
    worker: Seq<char>,
    attempt_id: u128,
    now: u64,
    lease_secs: u64,
    later: u64,
)
    requires
        0 <= i < before.len(),
        after.len() == before.len(),
        spec_claimed(before[i], after[i], worker, attempt_id, now, lease_secs),
        0 <= j < after.len(),
        after[j].spec_claimable(later),
    ensures
        i != j,
{
}

proof fn lemma_expired_ids_in_contains(jobs: Seq<JobRecord>, now: u64, status: JobStatus, j: int)
    requires
        0 <= j < jobs.len(),
        jobs[j].spec_lease_expired(now),
        jobs[j].status == status,
    ensures
        expired_ids_in(jobs, now, status).contains(jobs[j].info.id),
    decreases jobs.len(),
{
    let ids = expired_ids_in(jobs, now, status);
    if j == jobs.len() - 1 {
        assert(ids[ids.len() - 1] == jobs[j].info.id);
    } else {
        let rest = jobs.drop_last();
        assert(rest[j] == jobs[j]);
        lemma_expired_ids_in_contains(rest, now, status, j);
        let prev = expired_ids_in(rest, now, status);
        let w = choose|w: int| 0 <= w < prev.len() && prev[w] == jobs[j].info.id;
        assert(ids[w] == prev[w]);
    }
}

/// The position of the first job at or after `i` with id `id` in session `session_id`.
pub open spec fn find_from(jobs: Seq<JobRecord>, session_id: u128, id: u128, i: int) -> Option<usize>
    decreases jobs.len() - i,
{
    if i < 0 || i >= jobs.len() {
        None
    } else if jobs[i].info.id == id && jobs[i].info.session_id == session_id {
        Some(i as usize)
    } else {
        find_from(jobs, session_id, id, i + 1)
    }
}

proof fn lemma_find_from_bounds(jobs: Seq<JobRecord>, session_id: u128, id: u128, i: int)
    requires
        0 <= i,
        jobs.len() <= usize::MAX,
    ensures
        find_from(jobs, session_id, id, i) matches Some(k) ==> i <= k < jobs.len(),
    decreases jobs.len() - i,
{
    if i < jobs.len() && !(jobs[i].info.id == id && jobs[i].info.session_id == session_id) {
        lemma_find_from_bounds(jobs, session_id, id, i + 1);
    }
}

/// What a cursor bounds a listing by: nothing without a cursor, everything (`Some(None)`) when
/// the cursor is not a job of the session, and otherwise the creation time and id of that job.
pub open spec fn cursor_bound(jobs: Seq<JobRecord>, session_id: u128, cursor: Option<u128>) -> Option<
    Option<(u64, u128)>,
> {
    match cursor {
        None => None,
        Some(c) => match find_from(jobs, session_id, c, 0) {
            Some(i) => Some(Some((jobs[i as int].info.created_at, jobs[i as int].info.id))),
            None => Some(None),
        },
    }
}

/// Whether job `i` of the table belongs in the listing.
pub open spec fn listed(
    jobs: Seq<JobRecord>,
    session_id: u128,
    status: Option<JobStatus>,
    kind: Option<JobKind>,
    bound: Option<Option<(u64, u128)>>,
    i: int,
) -> bool {
    &&& 0 <= i < jobs.len()
    &&& jobs[i].info.session_id == session_id
    &&& (status matches Some(s) ==> jobs[i].status == s)
    &&& (kind matches Some(k) ==> jobs[i].info.kind == k)
    &&& match bound {
        None => true,
        Some(None) => false,
        Some(Some((t, id))) => jobs[i].info.created_at < t || (jobs[i].info.created_at == t
            && jobs[i].info.id < id),
    }
}

/// Whether job `a` of the table is listed before job `b`: created later, or at the same time
/// with a larger id (then the earlier in the table).
pub open spec fn newer(jobs: Seq<JobRecord>, a: int, b: int) -> bool {
    jobs[a].info.created_at > jobs[b].info.created_at || (jobs[a].info.created_at
        == jobs[b].info.created_at && (jobs[a].info.id > jobs[b].info.id || (jobs[a].info.id
        == jobs[b].info.id && a < b)))
}

/// Whether `idx` lists, newest first, the first `limit` jobs that belong in the listing.
pub open spec fn listing(
    jobs: Seq<JobRecord>,
    session_id: u128,
    status: Option<JobStatus>,
    kind: Option<JobKind>,
    bound: Option<Option<(u64, u128)>>,
    limit: nat,
    idx: Seq<usize>,
) -> bool {
    &&& idx.len() <= limit
    &&& forall|k: int|
        0 <= k < idx.len() ==> listed(jobs, session_id, status, kind, bound, #[trigger] idx[k] as int)
    &&& forall|k1: int, k2: int|
        0 <= k1 < k2 < idx.len() ==> newer(jobs, #[trigger] idx[k1] as int, #[trigger] idx[k2] as int)
    &&& forall|i: int|
        #![trigger listed(jobs, session_id, status, kind, bound, i)]
        listed(jobs, session_id, status, kind, bound, i) && !idx.contains(i as usize) ==> {
            &&& idx.len() == limit
            &&& (idx.len() > 0 ==> newer(jobs, idx.last() as int, i))
        }
}

/// Whether the page shows the jobs at positions `idx`, in that order.
pub open spec fn page_of(jobs: Seq<JobRecord>, idx: Seq<usize>, p: JobPage) -> bool {
    &&& p.items@.len() == idx.len()
    &&& forall|k: int| 0 <= k < idx.len() ==> shows_job(#[trigger] p.items@[k], jobs[idx[k] as int])
}

/// Consecutive pages never overlap: a job listed after the cursor of a page (its last job)
/// comes after every job on that page.
pub proof fn lemma_next_page_follows(
    jobs: Seq<JobRecord>,
    session_id: u128,
    status: Option<JobStatus>,
    kind: Option<JobKind>,
    bound: Option<Option<(u64, u128)>>,
    limit: nat,
    idx: Seq<usize>,
    j: int,
)
    requires
        listing(jobs, session_id, status, kind, bound, limit, idx),
        idx.len() > 0,
        listed(
            jobs,
            session_id,
            status,
            kind,
            Some(Some((jobs[idx.last() as int].info.created_at, jobs[idx.last() as int].info.id))),
            j,
        ),
    ensures
        forall|k: int| 0 <= k < idx.len() ==> newer(jobs, #[trigger] idx[k] as int, j) && idx[k] != j,
{
    assert forall|k: int| 0 <= k < idx.len() implies newer(jobs, #[trigger] idx[k] as int, j)
        && idx[k] != j by {
        if k < idx.len() - 1 {
            assert(newer(jobs, idx[k] as int, idx[idx.len() - 1] as int));
        }
    }
}

} // verus!
