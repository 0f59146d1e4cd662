//! The process supervisor: which job runs as which OS process.
//!
//! The registry maps a job id to the pid of the process started for it.  It
//! is plain data: the caller keeps the one instance behind its lock, spawns
//! and kills processes itself, and lets the registry decide what a start or
//! a stop means.
use crate::spawn::{command, plain_command, Platform, SpawnSpec, SpawnSpecView};
use crate::text::{as_text, decimal, push_decimal, texts};
use vstd::prelude::*;
use vstd::string::StringExecFns;

verus! {

/// One supervised process.
pub struct Job {
    pub id: String,
    pub pid: u32,
}

/// The map that a sequence of jobs stands for; of two jobs with one id the
/// later counts.
pub open spec fn jobs_map(jobs: Seq<Job>) -> Map<Seq<char>, u32>
    decreases jobs.len(),
{
    if jobs.len() == 0 {
        Map::empty()
    } else {
        jobs_map(jobs.drop_last()).insert(jobs.last().id@, jobs.last().pid)
    }
}

/// Whether no two jobs of the sequence have the same id.
pub open spec fn distinct_ids(jobs: Seq<Job>) -> bool {
    forall|i: int, j: int| 0 <= i < j < jobs.len() ==> jobs[i].id@ != jobs[j].id@
}

proof fn jobs_map_domain(jobs: Seq<Job>)
    ensures
        forall|id: Seq<char>|
            jobs_map(jobs).contains_key(id) <==> exists|i: int|
                0 <= i < jobs.len() && #[trigger] jobs[i].id@ == id,
        jobs_map(jobs).dom().finite(),
    decreases jobs.len(),
{
    if jobs.len() > 0 {
        let front = jobs.drop_last();
        jobs_map_domain(front);
        assert forall|id: Seq<char>| jobs_map(jobs).contains_key(id) implies exists|i: int|
            0 <= i < jobs.len() && #[trigger] jobs[i].id@ == id by {
            if id != jobs.last().id@ {
                let i = choose|i: int| 0 <= i < front.len() && #[trigger] front[i].id@ == id;
                assert(jobs[i].id@ == id);
            }
        }
        assert forall|id: Seq<char>|
            (exists|i: int|
                0 <= i < jobs.len() && #[trigger] jobs[i].id@ == id) implies jobs_map(
            jobs,
        ).contains_key(id) by {
            let i = choose|i: int| 0 <= i < jobs.len() && #[trigger] jobs[i].id@ == id;
            if i < jobs.len() - 1 {
                assert(front[i].id@ == id);
            }
        }
    }
}

proof fn jobs_map_at(jobs: Seq<Job>, i: int)
    requires
        distinct_ids(jobs),
        0 <= i < jobs.len(),
    ensures
        jobs_map(jobs).contains_key(jobs[i].id@),
        jobs_map(jobs)[jobs[i].id@] == jobs[i].pid,
    decreases jobs.len(),
{
    if i < jobs.len() - 1 {
        jobs_map_at(jobs.drop_last(), i);
    }
}

proof fn jobs_map_without(jobs: Seq<Job>, i: int)
    requires
        distinct_ids(jobs),
        0 <= i < jobs.len(),
    ensures
        jobs_map(jobs.remove(i)) == jobs_map(jobs).remove(jobs[i].id@),
        distinct_ids(jobs.remove(i)),
    decreases jobs.len(),
{
    let front = jobs.drop_last();
    if i == jobs.len() - 1 {
        jobs_map_domain(front);
    } else {
        jobs_map_without(front, i);
        assert(jobs.remove(i).drop_last() =~= front.remove(i));
    }
}

proof fn jobs_map_replaced(jobs: Seq<Job>, i: int, job: Job)
    requires
        distinct_ids(jobs),
        0 <= i < jobs.len(),
        job.id@ == jobs[i].id@,
    ensures
        jobs_map(jobs.update(i, job)) == jobs_map(jobs).insert(job.id@, job.pid),
        distinct_ids(jobs.update(i, job)),
    decreases jobs.len(),
{
    let front = jobs.drop_last();
    if i == jobs.len() - 1 {
        assert(jobs.update(i, job).drop_last() =~= front);
    } else {
        jobs_map_replaced(front, i, job);
        assert(jobs.update(i, job).drop_last() =~= front.update(i, job));
    }
}

/// The registry of supervised processes.
pub struct ProcessRegistry {
    jobs: Vec<Job>,
}

impl View for ProcessRegistry {
    type V = Map<Seq<char>, u32>;

    closed spec fn view(&self) -> Map<Seq<char>, u32> {
        jobs_map(self.jobs@)
    }
}

impl ProcessRegistry {
    #[verifier::type_invariant]
    spec fn sound(&self) -> bool {
        distinct_ids(self.jobs@)
    }

    /// An empty registry.
    pub fn new() -> (registry: ProcessRegistry)
        ensures
            registry@ == Map::<Seq<char>, u32>::empty(),
    {
        ProcessRegistry { jobs: Vec::new() }
    }

    fn position(&self, job_id: &String) -> (found: Option<usize>)
        ensures
            match found {
                Some(i) => i < self.jobs.len() && self.jobs@[i as int].id@ == job_id@,
                None => forall|i: int| 0 <= i < self.jobs.len() ==> self.jobs@[i].id@ != job_id@,
            },
    {
        let mut i: usize = 0;
        while i < self.jobs.len()
            invariant
                i <= self.jobs.len(),
                forall|k: int| 0 <= k < i ==> self.jobs@[k].id@ != job_id@,
            decreases self.jobs.len() - i,
        {
            if self.jobs[i].id == *job_id {
                return Some(i);
            }
            i += 1;
        }
        None
    }

    /// The pid registered for `job_id`, if any.
    pub fn lookup(&self, job_id: &str) -> (pid: Option<u32>)
        ensures
            pid == if self@.contains_key(job_id@) {
                Some(self@[job_id@])
            } else {
                None
            },
    {
        proof {
            use_type_invariant(self);
            jobs_map_domain(self.jobs@);
        }
        let id = job_id.to_owned();
        match self.position(&id) {
            Some(i) => {
                proof {
                    jobs_map_at(self.jobs@, i as int);
                }
                Some(self.jobs[i].pid)
            },
            None => None,
        }
    }

    /// The number of registered jobs.
    pub fn len(&self) -> (n: usize)
        ensures
            n == self@.dom().len(),
    {
        proof {
            use_type_invariant(self);
            jobs_map_len(self.jobs@);
        }
        self.jobs.len()
    }

    /// Registers `pid` for `job_id`.  A pid registered for the same id
    /// before is overwritten and handed back: its process is no longer
    /// supervised.
    pub fn register(&mut self, job_id: &str, pid: u32) -> (displaced: Option<u32>)
        ensures
            final(self)@ == old(self)@.insert(job_id@, pid),
            displaced == if old(self)@.contains_key(job_id@) {
                Some(old(self)@[job_id@])
            } else {
                None
            },
    {
        proof {
            use_type_invariant(&*self);
            jobs_map_domain(self.jobs@);
        }
        let id = job_id.to_owned();
        let found = self.position(&id);
        let mut jobs: Vec<Job> = Vec::new();
        core::mem::swap(&mut self.jobs, &mut jobs);
        let displaced = match found {
            Some(i) => {
                proof {
                    jobs_map_at(jobs@, i as int);
                }
                let before = jobs[i].pid;
                let job = Job { id, pid };
                proof {
                    jobs_map_replaced(jobs@, i as int, job);
                }
                jobs.set(i, job);
                Some(before)
            },
            None => {
                let job = Job { id, pid };
                assert(jobs@.push(job).drop_last() =~= jobs@);
                jobs.push(job);
                None
            },
        };
        self.jobs = jobs;
        displaced
    }

    /// Removes the entry of `job_id` and hands back its pid, if there was one.
    pub fn take(&mut self, job_id: &str) -> (pid: Option<u32>)
        ensures
            final(self)@ == old(self)@.remove(job_id@),
            pid == if old(self)@.contains_key(job_id@) {
                Some(old(self)@[job_id@])
            } else {
                None
            },
    {
        proof {
            use_type_invariant(&*self);
            jobs_map_domain(self.jobs@);
        }
        let id = job_id.to_owned();
        match self.position(&id) {
            Some(i) => {
                proof {
                    jobs_map_at(self.jobs@, i as int);
                    jobs_map_without(self.jobs@, i as int);
                }
                let mut jobs: Vec<Job> = Vec::new();
                core::mem::swap(&mut self.jobs, &mut jobs);
                let job = jobs.remove(i);
                self.jobs = jobs;
                Some(job.pid)
            },
            None => {
                None
            },
        }
    }

    /// Forgets every job.
    pub fn clear(&mut self)
        ensures
            final(self)@ == Map::<Seq<char>, u32>::empty(),
    {
        self.jobs = Vec::new();
    }
}

proof fn jobs_map_len(jobs: Seq<Job>)
    requires
        distinct_ids(jobs),
    ensures
        jobs_map(jobs).dom().finite(),
        jobs_map(jobs).dom().len() == jobs.len(),
    decreases jobs.len(),
{
    if jobs.len() > 0 {
        let front = jobs.drop_last();
        jobs_map_len(front);
        jobs_map_domain(front);
    }
}

/// What a stop request came to.
#[derive(Debug)]
pub enum StopOutcome {
    /// The job was registered under `pid`; its entry is removed, and
    /// `termination` is the command that kills the process.  The caller
    /// runs it without waiting for the process to go, and need not report
    /// its failure: the job is not supervised any more either way.
    Stopped { pid: u32, termination: SpawnSpec },
    /// No process is registered for the job.  This is no error.
    NotRunning,
}

/// A [`StopOutcome`] as a mathematical value.
pub enum StopOutcomeView {
    Stopped { pid: u32, termination: SpawnSpecView },
    NotRunning,
}

impl View for StopOutcome {
    type V = StopOutcomeView;

    open spec fn view(&self) -> StopOutcomeView {
        match *self {
            StopOutcome::Stopped { pid, termination } => StopOutcomeView::Stopped {
                pid,
                termination: termination@,
            },
            StopOutcome::NotRunning => StopOutcomeView::NotRunning,
        }
    }
}

/// The command that forcefully ends the process `pid`: on Windows the
/// process with its whole tree, elsewhere the process itself.
pub open spec fn termination_command(platform: Platform, pid: u32) -> SpawnSpecView {
    match platform {
        Platform::Windows => SpawnSpecView {
            hide_window: true,
            ..plain_command("taskkill"@, seq!["/PID"@, as_text(decimal(pid as nat)), "/T"@, "/F"@])
        },
        _ => plain_command("kill"@, seq!["-9"@, as_text(decimal(pid as nat))]),
    }
}

/// What stopping `job_id` comes to in a registry that stands for `registry`.
pub open spec fn stop_of(
    registry: Map<Seq<char>, u32>,
    platform: Platform,
    job_id: Seq<char>,
) -> StopOutcomeView {
    if registry.contains_key(job_id) {
        StopOutcomeView::Stopped {
            pid: registry[job_id],
            termination: termination_command(platform, registry[job_id]),
        }
    } else {
        StopOutcomeView::NotRunning
    }
}

/// Builds the command that forcefully ends the process `pid`.
pub fn terminate(platform: Platform, pid: u32) -> (spec: SpawnSpec)
    ensures
        spec@ == termination_command(platform, pid),
{
    let mut number = String::new();
    push_decimal(&mut number, pid as u64);
    let mut args: Vec<String> = Vec::new();
    match platform {
        Platform::Windows => {
            args.push(String::from_str("/PID"));
            args.push(number);
            args.push(String::from_str("/T"));
            args.push(String::from_str("/F"));
            assert(texts(args@) =~= seq![
                "/PID"@,
                as_text(decimal(pid as nat)),
                "/T"@,
                "/F"@,
            ]);
            let mut spec = command(String::from_str("taskkill"), args);
            spec.hide_window = true;
            spec
        },
        _ => {
            args.push(String::from_str("-9"));
            args.push(number);
            assert(texts(args@) =~= seq!["-9"@, as_text(decimal(pid as nat))]);
            command(String::from_str("kill"), args)
        },
    }
}

/// Stops a job: removes its entry and says how to kill its process.
pub fn stop(registry: &mut ProcessRegistry, platform: Platform, job_id: &str) -> (outcome:
    StopOutcome)
    ensures
        final(registry)@ == old(registry)@.remove(job_id@),
        outcome@ == stop_of(old(registry)@, platform, job_id@),
{
    match registry.take(job_id) {
        Some(pid) => StopOutcome::Stopped { pid, termination: terminate(platform, pid) },
        None => StopOutcome::NotRunning,
    }
}

/// Why a job could not be started.
#[derive(Debug)]
pub enum StartError {
    /// The operating system refused to start the process.
    SpawnFailed { reason: String },
}

/// Takes note of a spawn attempt for `job_id`: a started process is
/// registered under its pid, which is returned; a failed attempt registers
/// nothing and is reported with the system's reason.
pub fn record_start(
    registry: &mut ProcessRegistry,
    job_id: &str,
    spawned: Result<u32, String>,
) -> (started: Result<u32, StartError>)
    ensures
        match spawned {
            Ok(pid) => started == Ok::<u32, StartError>(pid) && final(registry)@ == old(
                registry,
            )@.insert(job_id@, pid),
            Err(reason) => started == Err::<u32, StartError>(StartError::SpawnFailed { reason })
                && final(registry)@ == old(registry)@,
        },
{
    match spawned {
        Ok(pid) => {
            registry.register(job_id, pid);
            Ok(pid)
        },
        Err(reason) => Err(StartError::SpawnFailed { reason }),
    }
}

/// What the user is told after a start.
pub open spec fn start_message_of(job_id: Seq<char>, started: Result<u32, StartError>) -> Seq<
    char,
> {
    match started {
        Ok(pid) => "Started "@ + job_id + " (pid "@ + as_text(decimal(pid as nat)) + ")"@,
        Err(StartError::SpawnFailed { reason }) => "Failed to start "@ + job_id + ": "@ + reason@,
    }
}

/// What the user is told after a stop.
pub open spec fn stop_message_of(job_id: Seq<char>, outcome: StopOutcomeView) -> Seq<char> {
    match outcome {
        StopOutcomeView::Stopped { pid, .. } => "Stopped "@ + job_id + " (pid "@ + as_text(
            decimal(pid as nat),
        ) + ")"@,
        StopOutcomeView::NotRunning => job_id + " is not running"@,
    }
}

/// The status line for a start.
pub fn start_message(job_id: &str, started: &Result<u32, StartError>) -> (message: String)
    ensures
        message@ == start_message_of(job_id@, *started),
{
    match started {
        Ok(pid) => {
            let mut message = String::from_str("Started ");
            message.append(job_id);
            message.append(" (pid ");
            push_decimal(&mut message, *pid as u64);
            message.append(")");
            message
        },
        Err(StartError::SpawnFailed { reason }) => {
            let mut message = String::from_str("Failed to start ");
            message.append(job_id);
            message.append(": ");
            message.append(reason.as_str());
            message
        },
    }
}

/// The status line for a stop.
pub fn stop_message(job_id: &str, outcome: &StopOutcome) -> (message: String)
    ensures
        message@ == stop_message_of(job_id@, outcome@),
{
    match outcome {
        StopOutcome::Stopped { pid, .. } => {
            let mut message = String::from_str("Stopped ");
            message.append(job_id);
            message.append(" (pid ");
            push_decimal(&mut message, *pid as u64);
            message.append(")");
            message
        },
        StopOutcome::NotRunning => {
            let mut message = job_id.to_owned();
            message.append(" is not running");
            message
        },
    }
}

/// The life of a job: once `pid` is registered for `job_id`, a stop finds
/// that pid; after the stop, and for any job that was never started, a stop
/// finds nothing to do and leaves the registry as it is.
pub proof fn stop_finds_what_start_registered(
    registry: Map<Seq<char>, u32>,
    platform: Platform,
    job_id: Seq<char>,
    pid: u32,
)
    ensures
        stop_of(registry.insert(job_id, pid), platform, job_id) == (StopOutcomeView::Stopped {
            pid,
            termination: termination_command(platform, pid),
        }),
        stop_of(registry.insert(job_id, pid).remove(job_id), platform, job_id)
            == StopOutcomeView::NotRunning,
        !registry.contains_key(job_id) ==> stop_of(registry, platform, job_id)
            == StopOutcomeView::NotRunning && registry.remove(job_id) == registry,
{
}

/// Stopping one job leaves every other job's entry alone.
pub proof fn stop_leaves_other_jobs(
    registry: Map<Seq<char>, u32>,
    job_id: Seq<char>,
    other: Seq<char>,
)
    requires
        other != job_id,
    ensures
        registry.remove(job_id).contains_key(other) == registry.contains_key(other),
        registry.contains_key(other) ==> registry.remove(job_id)[other] == registry[other],
{
}

} // verus!
