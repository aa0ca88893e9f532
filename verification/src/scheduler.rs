//! The download schedule: one job for each resolved asset, with a ceiling
//! on how many run at once.

use crate::downloader::{
    download, final_path_of, temp_path_of, Download, DownloadOutcome, DownloadView, OutcomeView,
    PhaseView,
};
use crate::error::{result_view, ConfigError, ErrorView, PipelineError};
use crate::resolver::{EntryView, ResolvedAssets};
use crate::text::views;
use vstd::prelude::*;

verus! {

/// The number of downloads that run at once where nothing else is asked for.
pub const DEFAULT_JOBS: usize = 4;

/// A pool of permits, each held by at most one download at a time.
#[derive(Debug, PartialEq, Eq)]
pub struct PermitPool {
    capacity: usize,
    held: usize,
}

/// The mathematical value of a [`PermitPool`].
pub struct PoolView {
    pub capacity: nat,
    pub held: nat,
}

impl PoolView {
    /// There is a permit, and no more are held than there are.
    pub open spec fn wf(self) -> bool {
        1 <= self.capacity && self.held <= self.capacity
    }
}

impl View for PermitPool {
    type V = PoolView;

    closed spec fn view(&self) -> PoolView {
        PoolView { capacity: self.capacity as nat, held: self.held as nat }
    }
}

impl PermitPool {
    #[verifier::type_invariant]
    spec fn valid(&self) -> bool {
        1 <= self.capacity && self.held <= self.capacity
    }

    /// A pool of `jobs` permits, none of them held. A pool without permits
    /// is refused.
    pub fn new(jobs: usize) -> (res: Result<PermitPool, ConfigError>)
        ensures
            jobs == 0 ==> res == Err::<PermitPool, ConfigError>(ConfigError::NoJobs),
            jobs >= 1 ==> res is Ok && res.unwrap()@ == (PoolView { capacity: jobs as nat, held: 0 }),
    {
        if jobs == 0 {
            Err(ConfigError::NoJobs)
        } else {
            Ok(PermitPool { capacity: jobs, held: 0 })
        }
    }

    /// The number of permits.
    pub fn capacity(&self) -> (res: usize)
        ensures
            res == self@.capacity,
            self@.wf(),
    {
        proof {
            use_type_invariant(self);
        }
        self.capacity
    }

    /// The number of permits held.
    pub fn held(&self) -> (res: usize)
        ensures
            res == self@.held,
            self@.wf(),
    {
        proof {
            use_type_invariant(self);
        }
        self.held
    }

    /// Takes a permit if one is free, and says whether it did.
    pub fn try_acquire(&mut self) -> (res: bool)
        ensures
            res == (old(self)@.held < old(self)@.capacity),
            final(self)@.capacity == old(self)@.capacity,
            final(self)@.held == old(self)@.held + (if res { 1nat } else { 0nat }),
            final(self)@.wf(),
        no_unwind
    {
        proof {
            use_type_invariant(&*self);
        }
        if self.held < self.capacity {
            self.held = self.held + 1;
            true
        } else {
            false
        }
    }

    /// Gives a permit back if one is held, and says whether it did.
    pub fn release(&mut self) -> (res: bool)
        ensures
            res == (old(self)@.held > 0),
            final(self)@.capacity == old(self)@.capacity,
            final(self)@.held == old(self)@.held - (if res { 1nat } else { 0nat }),
            final(self)@.wf(),
        no_unwind
    {
        proof {
            use_type_invariant(&*self);
        }
        if self.held > 0 {
            self.held = self.held - 1;
            true
        } else {
            false
        }
    }
}

/// One unit of transfer work: the asset of one post, and the directory it
/// goes to.
#[derive(Debug, PartialEq, Eq)]
pub struct DownloadJob {
    pub post_id: String,
    pub asset_url: String,
    pub output_dir: String,
}

/// The mathematical value of a [`DownloadJob`].
pub struct JobView {
    pub post_id: Seq<char>,
    pub asset_url: Seq<char>,
    pub output_dir: Seq<char>,
}

impl View for DownloadJob {
    type V = JobView;

    open spec fn view(&self) -> JobView {
        JobView {
            post_id: self.post_id@,
            asset_url: self.asset_url@,
            output_dir: self.output_dir@,
        }
    }
}

impl Clone for DownloadJob {
    fn clone(&self) -> (res: Self)
        ensures
            res == *self,
    {
        DownloadJob {
            post_id: self.post_id.clone(),
            asset_url: self.asset_url.clone(),
            output_dir: self.output_dir.clone(),
        }
    }
}

/// The download that a job begins with.
pub open spec fn begin_spec(job: JobView) -> DownloadView {
    DownloadView {
        post_id: job.post_id,
        video_url: job.asset_url,
        final_path: final_path_of(job.output_dir, job.post_id),
        temp_path: temp_path_of(final_path_of(job.output_dir, job.post_id)),
        phase: PhaseView::CheckingFinal,
    }
}

impl DownloadJob {
    /// Begins the download of this job.
    pub fn begin(&self) -> (res: Download)
        ensures
            res@ == begin_spec(self@),
    {
        download(self.post_id.as_str(), self.asset_url.as_str(), self.output_dir.as_str())
    }
}

/// The job for one resolved asset.
pub open spec fn job_of(entry: EntryView, output_dir: Seq<char>) -> JobView {
    JobView { post_id: entry.post_id, asset_url: entry.asset.url, output_dir }
}

/// The jobs for `entries`, one for each and in their order.
pub open spec fn jobs_of(entries: Seq<EntryView>, output_dir: Seq<char>) -> Seq<JobView> {
    entries.map_values(|entry: EntryView| job_of(entry, output_dir))
}

/// Makes one job for each resolved asset, all into the directory
/// `output_dir`.
pub fn plan_jobs(assets: &ResolvedAssets, output_dir: &str) -> (res: Vec<DownloadJob>)
    ensures
        views(res@) == jobs_of(assets.entries(), output_dir@),
{
    let mut jobs: Vec<DownloadJob> = Vec::new();
    let mut i: usize = 0;
    while i < assets.len()
        invariant
            i <= assets.entries().len(),
            jobs.len() == i,
            forall|j: int| 0 <= j < i ==> jobs[j]@ == job_of(assets.entries()[j], output_dir@),
        decreases assets.entries().len() - i,
    {
        let entry = assets.entry(i);
        jobs.push(
            DownloadJob {
                post_id: entry.post_id.clone(),
                asset_url: entry.asset.url.clone(),
                output_dir: String::from_str(output_dir),
            },
        );
        i = i + 1;
    }
    jobs
}

/// What the caller has to do next for the schedule.
#[derive(Debug, PartialEq, Eq)]
pub enum Dispatch {
    /// Start this job now; it holds a permit until its completion is reported.
    Start(DownloadJob),
    /// Wait until a running job completes, and report it.
    Wait,
    /// Nothing runs and nothing will be started: the schedule ended as given.
    Finished(Result<(), PipelineError>),
}

/// The mathematical value of a [`Dispatch`].
pub enum DispatchView {
    Start(JobView),
    Wait,
    Finished(Result<(), ErrorView>),
}

impl View for Dispatch {
    type V = DispatchView;

    open spec fn view(&self) -> DispatchView {
        match self {
            Dispatch::Start(job) => DispatchView::Start(job@),
            Dispatch::Wait => DispatchView::Wait,
            Dispatch::Finished(result) => DispatchView::Finished(result_view(*result)),
        }
    }
}

/// The mathematical value of a [`Scheduler`].
pub struct ScheduleView {
    /// The most jobs that may run at once.
    pub limit: nat,
    /// All jobs, in the order in which they are started.
    pub jobs: Seq<JobView>,
    /// How many jobs have been started.
    pub started: nat,
    /// How many jobs run now.
    pub running: nat,
    /// The failure of the first job that was reported to have failed.
    pub failure: Option<ErrorView>,
}

impl ScheduleView {
    /// No more jobs run than the limit allows or than were started, and
    /// no more were started than there are.
    pub open spec fn wf(self) -> bool {
        &&& 1 <= self.limit
        &&& self.running <= self.limit
        &&& self.running <= self.started <= self.jobs.len()
    }

    /// Whether the next job may start: one is left, and a permit is free.
    /// That another job has failed does not hold it back.
    pub open spec fn can_start(self) -> bool {
        self.started < self.jobs.len() && self.running < self.limit
    }
}

/// What a schedule in this state asks of the caller.
///
/// Jobs start in order while permits are free, whether or not a job
/// before them has failed: every job gets its turn. The schedule ends
/// when every job was started and none runs any more; it then ends with
/// the first failure reported, or well if there was none.
pub open spec fn dispatch_of(schedule: ScheduleView) -> DispatchView {
    if schedule.can_start() {
        DispatchView::Start(schedule.jobs[schedule.started as int])
    } else if schedule.running > 0 {
        DispatchView::Wait
    } else {
        DispatchView::Finished(
            match schedule.failure {
                Some(error) => Err(error),
                None => Ok(()),
            },
        )
    }
}

/// The schedule after it was asked what to do: a job that it hands out
/// counts as started and holds a permit.
pub open spec fn after_dispatch(schedule: ScheduleView) -> ScheduleView {
    if schedule.can_start() {
        ScheduleView {
            started: schedule.started + 1,
            running: schedule.running + 1,
            ..schedule
        }
    } else {
        schedule
    }
}

/// The schedule after a running job was reported to have ended with
/// `outcome`: its permit is free again, whatever the outcome, and the first
/// failure is kept. A report while nothing runs changes nothing.
pub open spec fn after_completion(schedule: ScheduleView, outcome: OutcomeView) -> ScheduleView {
    if schedule.running == 0 {
        schedule
    } else {
        ScheduleView {
            running: (schedule.running - 1) as nat,
            failure: match (schedule.failure, outcome) {
                (None, OutcomeView::Failure(error)) => Some(error),
                (failure, _) => failure,
            },
            ..schedule
        }
    }
}

/// The mathematical value of an optional failure.
pub open spec fn failure_view(failure: Option<PipelineError>) -> Option<ErrorView> {
    match failure {
        Some(error) => Some(error@),
        None => None,
    }
}

/// The schedule of a batch of downloads.
#[derive(Debug, PartialEq, Eq)]
pub struct Scheduler {
    pool: PermitPool,
    jobs: Vec<DownloadJob>,
    started: usize,
    failure: Option<PipelineError>,
}

impl View for Scheduler {
    type V = ScheduleView;

    closed spec fn view(&self) -> ScheduleView {
        ScheduleView {
            limit: self.pool@.capacity,
            jobs: views(self.jobs@),
            started: self.started as nat,
            running: self.pool@.held,
            failure: failure_view(self.failure),
        }
    }
}

impl Scheduler {
    #[verifier::type_invariant]
    spec fn valid(&self) -> bool {
        self.pool@.held <= self.started <= self.jobs.len()
    }

    /// A schedule of `work` in which at most `jobs` downloads run at once.
    /// A ceiling of zero is refused.
    pub fn new(jobs: usize, work: Vec<DownloadJob>) -> (res: Result<Scheduler, ConfigError>)
        ensures
            jobs == 0 ==> res is Err && res.unwrap_err() == ConfigError::NoJobs,
            jobs >= 1 ==> res is Ok && res.unwrap()@ == (ScheduleView {
                limit: jobs as nat,
                jobs: views(work@),
                started: 0,
                running: 0,
                failure: None,
            }),
    {
        match PermitPool::new(jobs) {
            Ok(pool) => Ok(Scheduler { pool, jobs: work, started: 0, failure: None }),
            Err(error) => Err(error),
        }
    }

    /// How many jobs run now.
    pub fn running(&self) -> (res: usize)
        ensures
            res == self@.running,
            self@.wf(),
    {
        proof {
            use_type_invariant(self);
            use_type_invariant(&self.pool);
        }
        self.pool.held()
    }

    /// The most jobs that may run at once.
    pub fn limit(&self) -> (res: usize)
        ensures
            res == self@.limit,
            self@.wf(),
    {
        proof {
            use_type_invariant(self);
        }
        self.pool.capacity()
    }

    /// Says what to do next. A job that is handed out counts as running
    /// from now on.
    pub fn dispatch(&mut self) -> (res: Dispatch)
        ensures
            res@ == dispatch_of(old(self)@),
            final(self)@ == after_dispatch(old(self)@),
            final(self)@.wf(),
    {
        proof {
            use_type_invariant(&*self);
        }
        let held: usize = self.pool.held();
        let capacity: usize = self.pool.capacity();
        if self.started < self.jobs.len() && held < capacity {
            let job = self.jobs[self.started].clone();
            self.started = self.started + 1;
            self.pool.try_acquire();
            Dispatch::Start(job)
        } else if held > 0 {
            Dispatch::Wait
        } else {
            match &self.failure {
                Some(error) => Dispatch::Finished(Err(error.clone())),
                None => Dispatch::Finished(Ok(())),
            }
        }
    }

    /// Takes the report that a running job ended with `outcome`.
    pub fn complete(&mut self, outcome: DownloadOutcome)
        ensures
            final(self)@ == after_completion(old(self)@, outcome@),
            final(self)@.wf(),
    {
        proof {
            use_type_invariant(&*self);
            use_type_invariant(&self.pool);
        }
        let gave: bool = self.pool.release();
        if gave {
            if self.failure.is_none() {
                match outcome {
                    DownloadOutcome::Failure(error) => {
                        self.failure = Some(error);
                    },
                    _ => {},
                }
            }
        }
    }
}

/// One thing that happens to a schedule: it is asked what to do, or a job
/// is reported to have ended.
pub enum ScheduleStep {
    Dispatch,
    Complete(OutcomeView),
}

/// The schedule after `step`.
pub open spec fn schedule_step(schedule: ScheduleView, step: ScheduleStep) -> ScheduleView {
    match step {
        ScheduleStep::Dispatch => after_dispatch(schedule),
        ScheduleStep::Complete(outcome) => after_completion(schedule, outcome),
    }
}

/// The schedule after `steps`, taken in order.
pub open spec fn schedule_run(schedule: ScheduleView, steps: Seq<ScheduleStep>) -> ScheduleView
    decreases steps.len(),
{
    if steps.len() == 0 {
        schedule
    } else {
        schedule_step(schedule_run(schedule, steps.drop_last()), steps.last())
    }
}

/// The ceiling holds at every instant: whatever is asked and reported, in
/// whatever order, no more jobs run than the limit allows. The limit and
/// the jobs stay what they were, and no job is taken back.
pub proof fn lemma_schedule_is_bounded(schedule: ScheduleView, steps: Seq<ScheduleStep>)
    requires
        schedule.wf(),
    ensures
        schedule_run(schedule, steps).wf(),
        schedule_run(schedule, steps).running <= schedule.limit,
        schedule_run(schedule, steps).limit == schedule.limit,
        schedule_run(schedule, steps).jobs == schedule.jobs,
        schedule_run(schedule, steps).started >= schedule.started,
    decreases steps.len(),
{
    if steps.len() > 0 {
        lemma_schedule_is_bounded(schedule, steps.drop_last());
    }
}

/// A permit is given back once for each job that ends, whether it ended
/// well or not.
pub proof fn lemma_permit_is_released(schedule: ScheduleView, outcome: OutcomeView)
    requires
        schedule.wf(),
        schedule.running > 0,
    ensures
        after_completion(schedule, outcome).running == schedule.running - 1,
        after_completion(schedule, outcome).started == schedule.started,
{
}

/// Jobs start in their order, each once: the job handed out is the first
/// that was not started yet.
pub proof fn lemma_jobs_start_in_order(schedule: ScheduleView)
    requires
        schedule.wf(),
        dispatch_of(schedule) is Start,
    ensures
        dispatch_of(schedule) == DispatchView::Start(schedule.jobs[schedule.started as int]),
        after_dispatch(schedule).started == schedule.started + 1,
        after_dispatch(schedule).running == schedule.running + 1,
        schedule.running < schedule.limit,
{
}

/// Every job gets to run: while a job is left, the schedule starts it or
/// waits for a permit, whatever has failed before, and it ends only when
/// every job was started and none runs any more. It then ends well
/// exactly if no job was reported to have failed, and else with the first
/// failure reported.
pub proof fn lemma_schedule_end(schedule: ScheduleView)
    requires
        schedule.wf(),
    ensures
        schedule.started < schedule.jobs.len() ==> !(dispatch_of(schedule) is Finished),
        schedule.started < schedule.jobs.len() && schedule.running < schedule.limit ==> dispatch_of(
            schedule,
        ) is Start,
        dispatch_of(schedule) is Finished <==> schedule.started == schedule.jobs.len()
            && schedule.running == 0,
        dispatch_of(schedule) == DispatchView::Finished(Ok(())) <==> schedule.started
            == schedule.jobs.len() && schedule.running == 0 && schedule.failure is None,
        schedule.failure is Some && dispatch_of(schedule) is Finished ==> dispatch_of(schedule)
            == DispatchView::Finished(Err(schedule.failure->Some_0)),
{
}

/// The work that is left: two steps for each job not yet started, its
/// start and its end, and one for each job that runs.
pub open spec fn work_left(schedule: ScheduleView) -> int {
    2 * (schedule.jobs.len() - schedule.started) + schedule.running
}

/// The schedule comes to its end: each job handed out and each completion
/// reported takes one step off the work that is left, failures included;
/// while work is left the schedule starts a job or waits for one that
/// runs, and when none is left it has finished.
pub proof fn lemma_schedule_progress(schedule: ScheduleView, outcome: OutcomeView)
    requires
        schedule.wf(),
    ensures
        work_left(schedule) >= 0,
        dispatch_of(schedule) is Start ==> work_left(after_dispatch(schedule)) == work_left(
            schedule,
        ) - 1,
        dispatch_of(schedule) is Wait ==> schedule.running > 0,
        schedule.running > 0 ==> work_left(after_completion(schedule, outcome)) == work_left(
            schedule,
        ) - 1,
        dispatch_of(schedule) is Finished <==> work_left(schedule) == 0,
{
}

/// The first failure reported is kept: later reports do not replace it,
/// and nothing takes it away.
pub proof fn lemma_first_failure_is_kept(schedule: ScheduleView, step: ScheduleStep)
    requires
        schedule.failure is Some,
    ensures
        schedule_step(schedule, step).failure == schedule.failure,
{
}

} // verus!
