//! The settings of one run.

use crate::error::ConfigError;
use crate::scheduler::DEFAULT_JOBS;
use vstd::prelude::*;

verus! {

/// What a run is started with: the plan to walk, the directory the videos
/// go to, the credential, and how many downloads may run at once.
#[derive(Debug, PartialEq, Eq)]
pub struct Cli {
    pub plan_id: String,
    pub output: String,
    pub token: String,
    pub jobs: usize,
}

/// The mathematical value of a [`Cli`].
pub struct CliView {
    pub plan_id: Seq<char>,
    pub output: Seq<char>,
    pub token: Seq<char>,
    pub jobs: usize,
}

impl View for Cli {
    type V = CliView;

    open spec fn view(&self) -> CliView {
        CliView {
            plan_id: self.plan_id@,
            output: self.output@,
            token: self.token@,
            jobs: self.jobs,
        }
    }
}

/// The number of parallel downloads that a run uses when `jobs` was asked
/// for: the default where nothing was.
pub open spec fn jobs_or_default(jobs: Option<usize>) -> usize {
    match jobs {
        Some(jobs) => jobs,
        None => DEFAULT_JOBS,
    }
}

impl Cli {
    /// The settings of a run. Without `jobs` the default number of parallel
    /// downloads is used; zero is refused.
    pub fn new(plan_id: String, output: String, token: String, jobs: Option<usize>) -> (res: Result<
        Cli,
        ConfigError,
    >)
        ensures
            jobs == Some(0usize) ==> res is Err && res.unwrap_err() == ConfigError::NoJobs,
            jobs != Some(0usize) ==> res is Ok && res.unwrap()@ == (CliView {
                plan_id: plan_id@,
                output: output@,
                token: token@,
                jobs: jobs_or_default(jobs),
            }),
    {
        let jobs = match jobs {
            Some(jobs) => jobs,
            None => DEFAULT_JOBS,
        };
        if jobs == 0 {
            Err(ConfigError::NoJobs)
        } else {
            Ok(Cli { plan_id, output, token, jobs })
        }
    }
}

} // verus!
