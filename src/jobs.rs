use vstd::prelude::*;
use crate::state::{job_state_of, normalize_job_state, PrinterJobState};

verus! {

/// A print job as the spooler lists it, with its canonical state.
/// Timestamps are milliseconds since the Unix epoch.
#[derive(Clone, Debug)]
pub struct PrinterJob {
    pub id: u64,
    pub name: String,
    pub state: PrinterJobState,
    pub printer_name: String,
    pub media_type: String,
    pub created_at: u64,
    pub processed_at: Option<u64>,
    pub completed_at: Option<u64>,
}

/// The job still needs the printer: pending, processing or paused.
pub open spec fn is_active(state: PrinterJobState) -> bool {
    state == PrinterJobState::PENDING || state == PrinterJobState::PROCESSING || state
        == PrinterJobState::PAUSED
}

/// The active jobs of a list, in their order.
pub open spec fn active_jobs(jobs: Seq<PrinterJob>) -> Seq<PrinterJob>
    decreases jobs.len(),
{
    if jobs.len() == 0 {
        jobs
    } else if is_active(jobs.last().state) {
        active_jobs(jobs.drop_last()).push(jobs.last())
    } else {
        active_jobs(jobs.drop_last())
    }
}

/// Keeps the active jobs, in order, when `active_only`; otherwise keeps all.
pub fn filter_jobs(jobs: Vec<PrinterJob>, active_only: bool) -> (r: Vec<PrinterJob>)
    ensures
        r@ == (if active_only {
            active_jobs(jobs@)
        } else {
            jobs@
        }),
{
    if !active_only {
        return jobs;
    }
    let ghost all = jobs@;
    let n: usize = jobs.len();
    let mut rest = jobs;
    let mut kept: Vec<PrinterJob> = Vec::new();
    let mut i: usize = 0;
    while rest.len() > 0
        invariant
            all.len() == n,
            i + rest@.len() == all.len(),
            rest@ == all.subrange(i as int, all.len() as int),
            kept@ == active_jobs(all.subrange(0, i as int)),
        decreases rest@.len(),
    {
        let job = rest.remove(0);
        proof {
            assert(all.subrange(0, i + 1).drop_last() =~= all.subrange(0, i as int));
            assert(all.subrange(0, i + 1).last() == job);
            assert(rest@ =~= all.subrange(i + 1, all.len() as int));
        }
        let active = match job.state {
            PrinterJobState::PENDING | PrinterJobState::PROCESSING | PrinterJobState::PAUSED => true,
            _ => false,
        };
        if active {
            kept.push(job);
        }
        i = i + 1;
    }
    proof {
        assert(all.subrange(0, i as int) =~= all);
    }
    kept
}

/// Every job that the filter keeps is active.
pub proof fn lemma_active_jobs_are_active(jobs: Seq<PrinterJob>)
    ensures
        forall|k: int| 0 <= k < active_jobs(jobs).len() ==> is_active(#[trigger] active_jobs(jobs)[k].state),
    decreases jobs.len(),
{
    if jobs.len() > 0 {
        lemma_active_jobs_are_active(jobs.drop_last());
    }
}

/// Filtering an already filtered list of active jobs changes nothing.
pub proof fn lemma_filter_jobs_idempotent(jobs: Seq<PrinterJob>)
    ensures
        active_jobs(active_jobs(jobs)) == active_jobs(jobs),
    decreases jobs.len(),
{
    if jobs.len() > 0 {
        let prev = active_jobs(jobs.drop_last());
        lemma_filter_jobs_idempotent(jobs.drop_last());
        if is_active(jobs.last().state) {
            assert(prev.push(jobs.last()).drop_last() =~= prev);
        }
    }
}

/// Read access to a print job as the platform describes it. Timestamps are
/// milliseconds since the Unix epoch.
pub trait PlatformPrinterJobGetters {
    fn get_id(&self) -> u64;

    fn get_name(&self) -> String;

    fn get_state(&self) -> u64;

    fn get_printer(&self) -> String;

    fn get_media_type(&self) -> String;

    fn get_created_at(&self) -> u64;

    fn get_processed_at(&self) -> Option<u64>;

    fn get_completed_at(&self) -> Option<u64>;
}

/// The fields of a job record of the platform's spooler, copied once at the
/// boundary.
#[derive(Clone, Debug)]
pub struct JobRecord {
    pub job_id: u32,
    pub document: String,
    /// Raw status code.
    pub status: u32,
    pub printer_name: String,
    pub data_type: String,
    /// Submission time, in milliseconds since the Unix epoch.
    pub submitted_at: u64,
}

impl PlatformPrinterJobGetters for JobRecord {
    fn get_id(&self) -> (r: u64)
        ensures
            r == self.job_id as u64,
    {
        self.job_id as u64
    }

    fn get_name(&self) -> (r: String)
        ensures
            r@ == self.document@,
    {
        self.document.clone()
    }

    fn get_state(&self) -> (r: u64)
        ensures
            r == self.status as u64,
    {
        self.status as u64
    }

    fn get_printer(&self) -> (r: String)
        ensures
            r@ == self.printer_name@,
    {
        self.printer_name.clone()
    }

    fn get_media_type(&self) -> (r: String)
        ensures
            r@ == self.data_type@,
    {
        self.data_type.clone()
    }

    fn get_created_at(&self) -> (r: u64)
        ensures
            r == self.submitted_at,
    {
        self.submitted_at
    }

    /// The spooler reports no separate processing time: the submission time
    /// stands for it.
    fn get_processed_at(&self) -> (r: Option<u64>)
        ensures
            r == Some(self.submitted_at),
    {
        Some(self.submitted_at)
    }

    /// The spooler reports no separate completion time: the submission time
    /// stands for it.
    fn get_completed_at(&self) -> (r: Option<u64>)
        ensures
            r == Some(self.submitted_at),
    {
        Some(self.submitted_at)
    }
}

impl PrinterJob {
    /// The canonical job for a spooler record. The record carries only its
    /// submission time, which also stands for the processing and completion
    /// times.
    pub fn from_platform_printer_job_getters(record: &JobRecord) -> (r: PrinterJob)
        ensures
            r.id == record.job_id as u64,
            r.name@ == record.document@,
            r.state == job_state_of(record.status as u64),
            r.printer_name@ == record.printer_name@,
            r.media_type@ == record.data_type@,
            r.created_at == record.submitted_at,
            r.processed_at == Some(record.submitted_at),
            r.completed_at == Some(record.submitted_at),
    {
        PrinterJob {
            id: record.job_id as u64,
            name: record.document.clone(),
            state: normalize_job_state(record.status as u64),
            printer_name: record.printer_name.clone(),
            media_type: record.data_type.clone(),
            created_at: record.submitted_at,
            processed_at: Some(record.submitted_at),
            completed_at: Some(record.submitted_at),
        }
    }
}

} // verus!
