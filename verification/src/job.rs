//! The work-item router: one shared worker pool executes heterogeneous
//! units of work, tagged by the subsystem they belong to.
//!
//! The tag set is closed and matched exhaustively: a storage-engine job and
//! a block-engine job are handed to their engines, which are outside this
//! layer; a dispatcher job is the delivery of a batch of reply envelopes,
//! which runs right here, verified. An unknown tag cannot exist.

use vstd::prelude::*;

use crate::ftd_sklave::{run_job, run_job_spec, Error, Order, Welt};

verus! {

/// A unit of the block engine's internal work, opaque to the router.
#[derive(Debug, PartialEq, Eq)]
pub struct BlockwheelFsJob {
    pub token: u64,
}

/// A unit of the key-value engine's internal work, opaque to the router.
#[derive(Debug, PartialEq, Eq)]
pub struct BlockwheelKvJob {
    pub token: u64,
}

/// A unit of the dispatcher's work: a batch of reply envelopes to deliver.
#[derive(Debug, PartialEq, Eq)]
pub struct FtdSklaveJob {
    pub befehle: Vec<Order>,
}

/// Everything the shared pool can be asked to run.
#[derive(Debug, PartialEq, Eq)]
pub enum Job {
    BlockwheelKv(BlockwheelKvJob),
    BlockwheelFs(BlockwheelFsJob),
    FtdSklave(FtdSklaveJob),
}

/// An engine-internal job the router hands onward, to the engine it is
/// tagged with.
#[derive(Debug, PartialEq, Eq)]
pub enum EngineJob {
    BlockwheelKv(BlockwheelKvJob),
    BlockwheelFs(BlockwheelFsJob),
}

/// One scheduled unit of work on the pool.
#[derive(Debug, PartialEq, Eq)]
pub struct JobUnit {
    pub job: Job,
}

impl JobUnit {
    /// Dispatch on the job's tag: an engine job goes to its engine,
    /// untouched; a dispatcher job delivers its envelope batch against the
    /// registry of completion handles and reports how that went.
    pub fn run(self, welt: &mut Welt) -> (r: Result<Option<EngineJob>, Error>)
        ensures
            match self.job {
                Job::BlockwheelKv(job) => r == Ok::<Option<EngineJob>, Error>(
                    Some(EngineJob::BlockwheelKv(job)),
                ) && final(welt).slots@ == old(welt).slots@,
                Job::BlockwheelFs(job) => r == Ok::<Option<EngineJob>, Error>(
                    Some(EngineJob::BlockwheelFs(job)),
                ) && final(welt).slots@ == old(welt).slots@,
                Job::FtdSklave(job) => {
                    let delivered = run_job_spec(old(welt).slots@, job.befehle@);
                    &&& final(welt).slots@ == delivered.0
                    &&& (delivered.1 is Ok ==> r == Ok::<Option<EngineJob>, Error>(None))
                    &&& (delivered.1 matches Err(error) ==> r == Err::<Option<EngineJob>, Error>(
                        error,
                    ))
                },
            },
    {
        match self.job {
            Job::BlockwheelKv(job) => Ok(Some(EngineJob::BlockwheelKv(job))),
            Job::BlockwheelFs(job) => Ok(Some(EngineJob::BlockwheelFs(job))),
            Job::FtdSklave(job) => {
                match run_job(welt, job.befehle) {
                    Ok(()) => Ok(None),
                    Err(error) => Err(error),
                }
            },
        }
    }
}

} // verus!
