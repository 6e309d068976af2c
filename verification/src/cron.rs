//! Cron scheduler: schedules, the time of a job's next run, and the job table.

use vstd::prelude::*;
use crate::text::{
    cat, cat3, dec, hex, is_prefix, now_millis, owned, parse_u64, parse_u64_spec, push_str,
    starts_with, str_eq, string_of_range, chars_of, u64_to_hex, u64_to_string, word_count,
    count_words,
};

verus! {

/// A scheduled job.
#[derive(Debug, Clone)]
pub struct CronJob {
    pub id: String,
    pub name: String,
    pub command: String,
    pub schedule: CronSchedule,
    pub enabled: bool,
    pub last_run: Option<u64>,
    pub next_run: Option<u64>,
    pub run_count: u32,
}

/// When a job runs.
#[derive(Debug, Clone)]
pub enum CronSchedule {
    At { at_ms: u64 },
    Every { every_ms: u64, anchor_ms: Option<u64> },
    Cron { expr: String },
}

/// What a new job is made from.
#[derive(Debug, Clone)]
pub struct CronJobCreate {
    pub name: String,
    pub command: String,
    pub schedule: CronSchedule,
    pub enabled: Option<bool>,
}

/// Milliseconds since the Unix epoch, now.
pub fn now_ms() -> (r: u64) {
    now_millis()
}

/// The next run time of a schedule, `now` being the current time in ms:
/// a one-off time still ahead; for a repeating schedule the first multiple
/// of the interval after its anchor (now when it has none) that lies past
/// now, or the anchor itself while it is ahead; for a cron expression one
/// minute from now when it has at least five fields.
pub open spec fn next_run_spec(s: CronSchedule, now: u64) -> Option<int> {
    match s {
        CronSchedule::At { at_ms } => if at_ms > now { Some(at_ms as int) } else { None },
        CronSchedule::Every { every_ms, anchor_ms } => {
            let anchor: int = match anchor_ms { Some(a) => a as int, None => now as int };
            if now < anchor {
                Some(anchor)
            } else {
                Some(anchor + ((now - anchor) / (every_ms as int) + 1) * every_ms)
            }
        }
        CronSchedule::Cron { expr } => if word_count(expr@) < 5 { None } else { Some(now + 60000) },
    }
}

/// A schedule whose next run can be computed at `now` without dividing by a
/// zero interval or leaving the range of `u64`.
pub open spec fn computable(s: CronSchedule, now: u64) -> bool {
    match s {
        CronSchedule::Every { every_ms, anchor_ms } => {
            let anchor: int = match anchor_ms { Some(a) => a as int, None => now as int };
            now < anchor || (every_ms > 0 && match next_run_spec(s, now) {
                Some(t) => t <= u64::MAX,
                None => true,
            })
        },
        CronSchedule::Cron { .. } => now + 60000 <= u64::MAX,
        _ => true,
    }
}

/// The next run time of a schedule at `now`.
pub fn next_run_at(schedule: &CronSchedule, now: u64) -> (r: Option<u64>)
    requires
        computable(*schedule, now),
    ensures
        match r {
            Some(t) => next_run_spec(*schedule, now) == Some(t as int),
            None => next_run_spec(*schedule, now) is None,
        },
{
    match schedule {
        CronSchedule::At { at_ms } => if *at_ms > now { Some(*at_ms) } else { None },
        CronSchedule::Every { every_ms, anchor_ms } => {
            let interval = *every_ms;
            let anchor = match anchor_ms { Some(a) => *a, None => now };
            if now < anchor {
                return Some(anchor);
            }
            let elapsed = now - anchor;
            let q = elapsed / interval;
            assert((q + 1) * (interval as int) >= q + 1) by (nonlinear_arith)
                requires interval >= 1;
            let steps = q + 1;
            assert(steps * interval <= u64::MAX - anchor);
            Some(anchor + steps * interval)
        }
        CronSchedule::Cron { expr } => {
            if count_words(expr.as_str()) < 5 {
                None
            } else {
                Some(now + 60000)
            }
        }
    }
}

/// The next run time of a schedule, in ms, or `Never`.
pub fn next_run_time_at(schedule: &CronSchedule, now: u64) -> (r: String)
    requires
        computable(*schedule, now),
    ensures
        r@ == match next_run_spec(*schedule, now) {
            Some(t) => dec(t as nat),
            None => "Never"@,
        },
{
    match next_run_at(schedule, now) {
        Some(ts) => u64_to_string(ts),
        None => owned("Never"),
    }
}

/// The next run time of a schedule, in ms, or `Never`, computed now.
/// A repeating schedule needs a non-zero interval.
pub fn next_run_time(schedule: &CronSchedule) -> (r: String)
    requires
        *schedule matches CronSchedule::Every { every_ms, .. } ==> every_ms > 0,
    ensures
        exists|now: u64| r@ == match next_run_spec(*schedule, now) {
            Some(t) => dec(t as nat),
            None => "Never"@,
        } || (!computable(*schedule, now) && r@ == "Never"@),
{
    let now = now_ms();
    if !schedule_fits(schedule, now) {
        return owned("Never");
    }
    next_run_time_at(schedule, now)
}

fn schedule_fits(schedule: &CronSchedule, now: u64) -> (r: bool)
    ensures
        r == computable(*schedule, now),
{
    match schedule {
        CronSchedule::At { .. } => true,
        CronSchedule::Every { every_ms, anchor_ms } => {
            let anchor = match anchor_ms { Some(a) => *a, None => now };
            if now < anchor {
                return true;
            }
            if *every_ms == 0 {
                return false;
            }
            let q = (now - anchor) / *every_ms;
            let iv = *every_ms;
            assert((q + 1) * (iv as int) >= q + 1) by (nonlinear_arith)
                requires iv >= 1;
            if q == u64::MAX {
                return false;
            }
            let steps = q + 1;
            match steps.checked_mul(*every_ms) {
                Some(x) => x <= u64::MAX - anchor,
                None => {
                    assert(steps * *every_ms > u64::MAX);
                    false
                }
            }
        }
        CronSchedule::Cron { .. } => now <= u64::MAX - 60000,
    }
}

/// What a schedule written as text stands for: `every <ms>` a repeating
/// schedule, `at <ms>` a one-off time (each refused when the number does
/// not parse), and anything else a cron expression.
pub open spec fn schedule_of(s: Seq<char>) -> Result<CronSchedule, Seq<char>> {
    if is_prefix("every "@, s) {
        match parse_u64_spec(s.subrange(6, s.len() as int)) {
            Some(ms) => Ok(CronSchedule::Every { every_ms: ms, anchor_ms: None }),
            None => Err("Invalid duration"@),
        }
    } else if is_prefix("at "@, s) {
        match parse_u64_spec(s.subrange(3, s.len() as int)) {
            Some(ts) => Ok(CronSchedule::At { at_ms: ts }),
            None => Err("Invalid timestamp"@),
        }
    } else {
        Err(s)
    }
}

/// Reads a schedule written as text.
pub fn parse_schedule(s: &str) -> (r: Result<CronSchedule, String>)
    ensures
        match schedule_of(s@) {
            Ok(sched) => r == Ok::<CronSchedule, String>(sched),
            Err(e) => if is_prefix("every "@, s@) || is_prefix("at "@, s@) {
                r is Err && r->Err_0@ == e
            } else {
                r is Ok && r->Ok_0 is Cron && r->Ok_0->Cron_expr@ == s@
            },
        },
{
    let v = chars_of(s);
    if starts_with(s, "every ") {
        proof { reveal_strlit("every "); }
        let rest = string_of_range(&v, 6, v.len());
        match parse_u64(rest.as_str()) {
            Some(ms) => Ok(CronSchedule::Every { every_ms: ms, anchor_ms: None }),
            None => Err(owned("Invalid duration")),
        }
    } else if starts_with(s, "at ") {
        proof { reveal_strlit("at "); }
        let rest = string_of_range(&v, 3, v.len());
        match parse_u64(rest.as_str()) {
            Some(ts) => Ok(CronSchedule::At { at_ms: ts }),
            None => Err(owned("Invalid timestamp")),
        }
    } else {
        Ok(CronSchedule::Cron { expr: owned(s) })
    }
}

/// The id of a job created at `now`: `cron_` and the first eight hex digits
/// of the time in ms (all of them when there are fewer).
pub open spec fn job_id(now: u64) -> Seq<char> {
    "cron_"@ + if hex(now as nat).len() >= 8 { hex(now as nat).subrange(0, 8) } else { hex(now as nat) }
}

fn generate_id(now: u64) -> (r: String)
    ensures
        r@ == job_id(now),
{
    let h = u64_to_hex(now);
    let hv = chars_of(h.as_str());
    let k = if hv.len() >= 8 { 8 } else { hv.len() };
    let prefix = string_of_range(&hv, 0, k);
    assert(hv@.len() < 8 ==> hv@.subrange(0, hv@.len() as int) =~= hv@);
    cat("cron_", prefix.as_str())
}

/// The next run recorded for a job created or run at `now`: none when it
/// cannot be computed within `u64`.
pub open spec fn recorded_next(s: CronSchedule, now: u64) -> Option<u64> {
    if computable(s, now) {
        match next_run_spec(s, now) {
            Some(t) => Some(t as u64),
            None => None,
        }
    } else {
        None
    }
}

fn next_or_none(schedule: &CronSchedule, now: u64) -> (r: Option<u64>)
    requires
        *schedule matches CronSchedule::Every { every_ms, .. } ==> every_ms > 0,
    ensures
        r == recorded_next(*schedule, now),
{
    if schedule_fits(schedule, now) {
        next_run_at(schedule, now)
    } else {
        None
    }
}

/// A schedule text that would make a repeating job with a zero interval.
pub open spec fn zero_interval(s: Seq<char>) -> bool {
    schedule_of(s) matches Ok(CronSchedule::Every { every_ms, .. }) && every_ms == 0
}

/// Adds an enabled job at time `now` (ms): refused with the schedule's error
/// when it does not parse; otherwise the job is appended with a fresh id,
/// no run yet and its next run, and the message names it.
pub fn add_job_at(jobs: &mut Vec<CronJob>, name: &str, schedule: &str, command: &str, now: u64) -> (r: String)
    requires
        !zero_interval(schedule@),
    ensures
        schedule_of(schedule@) is Err && (is_prefix("every "@, schedule@) || is_prefix("at "@, schedule@))
            ==> final(jobs)@ == old(jobs)@ && r@ == schedule_of(schedule@)->Err_0,
        !(schedule_of(schedule@) is Err && (is_prefix("every "@, schedule@) || is_prefix("at "@, schedule@))) ==> {
            &&& final(jobs)@.drop_last() == old(jobs)@
            &&& final(jobs)@.len() == old(jobs)@.len() + 1
            &&& final(jobs)@.last().id@ == job_id(now)
            &&& final(jobs)@.last().name@ == name@
            &&& final(jobs)@.last().command@ == command@
            &&& final(jobs)@.last().enabled
            &&& final(jobs)@.last().last_run is None
            &&& final(jobs)@.last().run_count == 0
            &&& final(jobs)@.last().next_run == recorded_next(final(jobs)@.last().schedule, now)
            &&& (schedule_of(schedule@) is Ok ==> final(jobs)@.last().schedule == schedule_of(schedule@)->Ok_0)
            &&& (schedule_of(schedule@) is Err ==> final(jobs)@.last().schedule is Cron
                && final(jobs)@.last().schedule->Cron_expr@ == schedule@)
            &&& r@ == "Added job: "@ + name@ + " ("@ + job_id(now) + ")"@
        },
{
    let sched = match parse_schedule(schedule) {
        Ok(s) => s,
        Err(e) => return e,
    };
    let id = generate_id(now);
    let next_run = next_or_none(&sched, now);
    let mut msg = cat3("Added job: ", name, " (");
    push_str(&mut msg, id.as_str());
    push_str(&mut msg, ")");
    let job = CronJob {
        id,
        name: owned(name),
        command: owned(command),
        schedule: sched,
        enabled: true,
        last_run: None,
        next_run,
        run_count: 0,
    };
    jobs.push(job);
    assert(jobs@.drop_last() =~= old(jobs)@);
    msg
}

/// Adds a job now; see `add_job_at`.
pub fn add_job(jobs: &mut Vec<CronJob>, name: &str, schedule: &str, command: &str) -> (r: String)
    requires
        !zero_interval(schedule@),
    ensures
        schedule_of(schedule@) is Err && (is_prefix("every "@, schedule@) || is_prefix("at "@, schedule@))
            ==> final(jobs)@ == old(jobs)@ && r@ == schedule_of(schedule@)->Err_0,
        !(schedule_of(schedule@) is Err && (is_prefix("every "@, schedule@) || is_prefix("at "@, schedule@))) ==> {
            &&& final(jobs)@.drop_last() == old(jobs)@
            &&& final(jobs)@.len() == old(jobs)@.len() + 1
            &&& final(jobs)@.last().name@ == name@
            &&& final(jobs)@.last().command@ == command@
            &&& final(jobs)@.last().enabled
            &&& final(jobs)@.last().run_count == 0
            &&& exists|now: u64| r@ == "Added job: "@ + name@ + " ("@ + job_id(now) + ")"@
                && final(jobs)@.last().id@ == job_id(now)
                && final(jobs)@.last().next_run == recorded_next(final(jobs)@.last().schedule, now)
        },
{
    let now = now_ms();
    add_job_at(jobs, name, schedule, command, now)
}

/// The listing line of a job.
pub open spec fn job_line(j: CronJob) -> Seq<char> {
    "  ["@ + j.id@ + "] "@ + j.name@ + " - next: "@ + (match j.next_run {
        Some(n) => dec(n as nat),
        None => "N/A"@,
    }) + " - runs: "@ + dec(j.run_count as nat) + "\n"@
}

/// The listing lines of the jobs, in order.
pub open spec fn job_lines(v: Seq<CronJob>) -> Seq<char>
    decreases v.len(),
{
    if v.len() == 0 {
        seq![]
    } else {
        job_lines(v.drop_last()) + job_line(v.last())
    }
}

fn job_line_text(j: &CronJob) -> (r: String)
    ensures
        r@ == job_line(*j),
{
    let next = match j.next_run {
        Some(n) => u64_to_string(n),
        None => owned("N/A"),
    };
    let runs = u64_to_string(j.run_count as u64);
    let mut out = owned("  [");
    push_str(&mut out, j.id.as_str());
    push_str(&mut out, "] ");
    push_str(&mut out, j.name.as_str());
    push_str(&mut out, " - next: ");
    push_str(&mut out, next.as_str());
    push_str(&mut out, " - runs: ");
    push_str(&mut out, runs.as_str());
    push_str(&mut out, "\n");
    out
}

/// Lists the jobs: `No cron jobs`, or a header and one line per job.
pub fn list_jobs(jobs: &Vec<CronJob>) -> (r: String)
    ensures
        r@ == if jobs@.len() == 0 { "No cron jobs"@ } else { "Cron Jobs:\n"@ + job_lines(jobs@) },
{
    if jobs.len() == 0 {
        return owned("No cron jobs");
    }
    let mut out = owned("Cron Jobs:\n");
    let mut i: usize = 0;
    while i < jobs.len()
        invariant
            i <= jobs@.len(),
            out@ == "Cron Jobs:\n"@ + job_lines(jobs@.subrange(0, i as int)),
        decreases jobs.len() - i,
    {
        assert(jobs@.subrange(0, i + 1).drop_last() =~= jobs@.subrange(0, i as int));
        let line = job_line_text(&jobs[i]);
        push_str(&mut out, line.as_str());
        i = i + 1;
    }
    assert(jobs@.subrange(0, jobs@.len() as int) =~= jobs@);
    out
}

/// The jobs whose name is not `name`, in order.
pub open spec fn jobs_without(v: Seq<CronJob>, name: Seq<char>) -> Seq<CronJob>
    decreases v.len(),
{
    if v.len() == 0 {
        seq![]
    } else if v.last().name@ == name {
        jobs_without(v.drop_last(), name)
    } else {
        jobs_without(v.drop_last(), name).push(v.last())
    }
}

proof fn lemma_jobs_without_len(v: Seq<CronJob>, name: Seq<char>)
    ensures
        jobs_without(v, name).len() <= v.len(),
        jobs_without(v, name).len() == v.len() <==> forall|k: int| 0 <= k < v.len() ==> v[k].name@ != name,
        jobs_without(v, name).len() == v.len() ==> jobs_without(v, name) == v,
    decreases v.len(),
{
    if v.len() > 0 {
        lemma_jobs_without_len(v.drop_last(), name);
        if jobs_without(v, name).len() == v.len() {
            assert forall|k: int| 0 <= k < v.len() implies v[k].name@ != name by {
                if k < v.len() - 1 {
                    assert(v[k] == v.drop_last()[k]);
                }
            }
            assert(v.drop_last().push(v.last()) =~= v);
        }
        if forall|k: int| 0 <= k < v.len() ==> v[k].name@ != name {
            assert forall|k: int| 0 <= k < v.drop_last().len() implies v.drop_last()[k].name@ != name by {
                assert(v.drop_last()[k] == v[k]);
            }
        }
    }
}

/// Removes every job with the name: `Job '<name>' not found` when there is
/// none, otherwise `Removed job: <name>`.
pub fn remove_job(jobs: &mut Vec<CronJob>, name: &str) -> (r: String)
    ensures
        final(jobs)@ == jobs_without(old(jobs)@, name@),
        r@ == if final(jobs)@.len() == old(jobs)@.len() {
            "Job '"@ + name@ + "' not found"@
        } else {
            "Removed job: "@ + name@
        },
{
    let ghost all = jobs@;
    let mut kept: Vec<CronJob> = Vec::new();
    let n = jobs.len();
    let mut k: usize = 0;
    assert(all.subrange(0, n as int) =~= all);
    while k < n
        invariant
            n == all.len(),
            k <= n,
            jobs@ == all.subrange(k as int, n as int),
            kept@ == jobs_without(all.subrange(0, k as int), name@),
        decreases n - k,
    {
        let j = jobs.remove(0);
        assert(j == all[k as int]);
        assert(all.subrange(0, k + 1).drop_last() =~= all.subrange(0, k as int));
        if !str_eq(j.name.as_str(), name) {
            kept.push(j);
        }
        k = k + 1;
        assert(jobs@ =~= all.subrange(k as int, n as int));
    }
    proof { lemma_jobs_without_len(all, name@); }
    *jobs = kept;
    if jobs.len() == n {
        let mut r = cat("Job '", name);
        push_str(&mut r, "' not found");
        r
    } else {
        cat("Removed job: ", name)
    }
}

/// Whether a job is due at `now`: enabled, with a next run at or before now.
pub open spec fn due(j: CronJob, now: u64) -> bool {
    j.enabled && (j.next_run matches Some(n) && n <= now)
}

/// Whether a job is due at `now`.
pub fn is_due(job: &CronJob, now: u64) -> (r: bool)
    ensures
        r == due(*job, now),
{
    job.enabled && match job.next_run {
        Some(n) => n <= now,
        None => false,
    }
}

/// Records that a job ran at `now`: its last run, one more run, and its next run.
pub fn record_run(job: &mut CronJob, now: u64)
    requires
        old(job).run_count < u32::MAX,
        old(job).schedule matches CronSchedule::Every { every_ms, .. } ==> every_ms > 0,
    ensures
        *final(job) == (CronJob {
            last_run: Some(now),
            run_count: (old(job).run_count + 1) as u32,
            next_run: recorded_next(old(job).schedule, now),
            ..*old(job)
        }),
{
    job.last_run = Some(now);
    job.run_count = job.run_count + 1;
    job.next_run = next_or_none(&job.schedule, now);
}

} // verus!
