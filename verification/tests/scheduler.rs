use myfans_dl::catalog::AssetReference;
use myfans_dl::downloader::{DownloadAction, DownloadOutcome};
use myfans_dl::error::{ConfigError, ErrorKind, PipelineError};
use myfans_dl::resolver::ResolvedAssets;
use myfans_dl::scheduler::{plan_jobs, Dispatch, DownloadJob, PermitPool, Scheduler, DEFAULT_JOBS};

fn job(number: usize) -> DownloadJob {
    DownloadJob {
        post_id: format!("p{number}"),
        asset_url: format!("https://cdn/{number}.mp4"),
        output_dir: "out".to_string(),
    }
}

fn work(count: usize) -> Vec<DownloadJob> {
    (0..count).map(job).collect()
}

fn broken(message: &str) -> PipelineError {
    PipelineError { kind: ErrorKind::Transfer, message: message.to_string() }
}

#[test]
fn default_number_of_jobs_is_four() {
    assert_eq!(DEFAULT_JOBS, 4);
}

#[test]
fn pool_without_permits_is_refused() {
    assert_eq!(PermitPool::new(0), Err(ConfigError::NoJobs));
}

#[test]
fn pool_hands_out_no_more_permits_than_it_has() {
    let mut pool = PermitPool::new(2).unwrap();
    assert_eq!(pool.capacity(), 2);
    assert_eq!(pool.held(), 0);
    assert!(pool.try_acquire());
    assert!(pool.try_acquire());
    assert!(!pool.try_acquire());
    assert_eq!(pool.held(), 2);
    assert!(pool.release());
    assert_eq!(pool.held(), 1);
    assert!(pool.try_acquire());
    assert!(!pool.try_acquire());
    assert_eq!(pool.held(), 2);
    assert_eq!(pool.capacity(), 2);
}

#[test]
fn pool_gives_back_only_what_is_held() {
    let mut pool = PermitPool::new(1).unwrap();
    assert!(!pool.release());
    assert_eq!(pool.held(), 0);
    assert!(pool.try_acquire());
    assert!(pool.release());
    assert!(!pool.release());
    assert_eq!(pool.held(), 0);
}

#[test]
fn schedule_without_jobs_allowed_is_refused() {
    assert_eq!(Scheduler::new(0, work(3)), Err(ConfigError::NoJobs));
}

#[test]
fn schedule_of_nothing_is_finished_at_once() {
    let mut schedule = Scheduler::new(4, vec![]).unwrap();
    assert_eq!(schedule.dispatch(), Dispatch::Finished(Ok(())));
    assert_eq!(schedule.running(), 0);
}

#[test]
fn schedule_never_runs_more_than_two_of_ten_at_once() {
    let mut schedule = Scheduler::new(2, work(10)).unwrap();
    assert_eq!(schedule.limit(), 2);
    let mut started: Vec<DownloadJob> = Vec::new();
    let mut most: usize = 0;
    let mut rounds: usize = 0;
    loop {
        rounds += 1;
        assert!(rounds < 100);
        match schedule.dispatch() {
            Dispatch::Start(job) => started.push(job),
            Dispatch::Wait => {
                assert!(schedule.running() >= 1);
                if started.len() < 10 {
                    assert_eq!(schedule.running(), 2);
                }
                schedule.complete(DownloadOutcome::Success);
            }
            Dispatch::Finished(result) => {
                assert_eq!(result, Ok(()));
                break;
            }
        }
        assert!(schedule.running() <= 2);
        if schedule.running() > most {
            most = schedule.running();
        }
    }
    assert_eq!(most, 2);
    assert_eq!(started, work(10));
    assert_eq!(schedule.running(), 0);
}

#[test]
fn schedule_starts_jobs_in_order_as_permits_come_free() {
    let mut schedule = Scheduler::new(2, work(3)).unwrap();
    assert_eq!(schedule.dispatch(), Dispatch::Start(job(0)));
    assert_eq!(schedule.dispatch(), Dispatch::Start(job(1)));
    assert_eq!(schedule.dispatch(), Dispatch::Wait);
    assert_eq!(schedule.dispatch(), Dispatch::Wait);
    assert_eq!(schedule.running(), 2);
    schedule.complete(DownloadOutcome::Skipped);
    assert_eq!(schedule.running(), 1);
    assert_eq!(schedule.dispatch(), Dispatch::Start(job(2)));
    assert_eq!(schedule.dispatch(), Dispatch::Wait);
    schedule.complete(DownloadOutcome::Success);
    schedule.complete(DownloadOutcome::Success);
    assert_eq!(schedule.dispatch(), Dispatch::Finished(Ok(())));
    assert_eq!(schedule.dispatch(), Dispatch::Finished(Ok(())));
}

#[test]
fn schedule_with_room_for_all_starts_all() {
    let mut schedule = Scheduler::new(8, work(3)).unwrap();
    assert_eq!(schedule.dispatch(), Dispatch::Start(job(0)));
    assert_eq!(schedule.dispatch(), Dispatch::Start(job(1)));
    assert_eq!(schedule.dispatch(), Dispatch::Start(job(2)));
    assert_eq!(schedule.running(), 3);
    assert_eq!(schedule.dispatch(), Dispatch::Wait);
}

#[test]
fn schedule_frees_the_permit_of_a_failed_job_and_starts_the_rest() {
    let mut schedule = Scheduler::new(2, work(5)).unwrap();
    assert_eq!(schedule.dispatch(), Dispatch::Start(job(0)));
    assert_eq!(schedule.dispatch(), Dispatch::Start(job(1)));
    schedule.complete(DownloadOutcome::Failure(broken("first")));
    assert_eq!(schedule.running(), 1);
    assert_eq!(schedule.dispatch(), Dispatch::Start(job(2)));
    assert_eq!(schedule.dispatch(), Dispatch::Wait);
    schedule.complete(DownloadOutcome::Failure(broken("second")));
    assert_eq!(schedule.dispatch(), Dispatch::Start(job(3)));
    schedule.complete(DownloadOutcome::Success);
    assert_eq!(schedule.dispatch(), Dispatch::Start(job(4)));
    assert_eq!(schedule.dispatch(), Dispatch::Wait);
    schedule.complete(DownloadOutcome::Success);
    schedule.complete(DownloadOutcome::Success);
    assert_eq!(schedule.running(), 0);
    assert_eq!(schedule.dispatch(), Dispatch::Finished(Err(broken("first"))));
}

#[test]
fn schedule_with_one_permit_runs_the_second_job_after_the_first_failed() {
    let mut schedule = Scheduler::new(1, work(2)).unwrap();
    assert_eq!(schedule.dispatch(), Dispatch::Start(job(0)));
    assert_eq!(schedule.dispatch(), Dispatch::Wait);
    schedule.complete(DownloadOutcome::Failure(broken("first")));
    assert_eq!(schedule.dispatch(), Dispatch::Start(job(1)));
    assert_eq!(schedule.dispatch(), Dispatch::Wait);
    schedule.complete(DownloadOutcome::Success);
    assert_eq!(schedule.dispatch(), Dispatch::Finished(Err(broken("first"))));
}

#[test]
fn schedule_runs_every_job_whichever_of_them_fail() {
    for jobs in [1, 2, 3, 4, 10, 11] {
        let mut schedule = Scheduler::new(jobs, work(10)).unwrap();
        let mut started: Vec<DownloadJob> = Vec::new();
        let mut ended: usize = 0;
        let result = loop {
            match schedule.dispatch() {
                Dispatch::Start(job) => started.push(job),
                Dispatch::Wait => {
                    let outcome = if ended % 3 == 1 {
                        DownloadOutcome::Failure(broken(&format!("job {ended}")))
                    } else {
                        DownloadOutcome::Success
                    };
                    ended += 1;
                    schedule.complete(outcome);
                }
                Dispatch::Finished(result) => break result,
            }
            assert!(schedule.running() <= jobs);
            assert_eq!(schedule.running(), started.len() - ended);
        };
        assert_eq!(started, work(10));
        assert_eq!(ended, 10);
        assert_eq!(result, Err(broken("job 1")));
    }
}

#[test]
fn schedule_lets_running_jobs_finish_after_a_failure() {
    let mut schedule = Scheduler::new(3, work(3)).unwrap();
    schedule.dispatch();
    schedule.dispatch();
    schedule.dispatch();
    schedule.complete(DownloadOutcome::Success);
    schedule.complete(DownloadOutcome::Failure(broken("middle")));
    assert_eq!(schedule.dispatch(), Dispatch::Wait);
    schedule.complete(DownloadOutcome::Success);
    assert_eq!(schedule.dispatch(), Dispatch::Finished(Err(broken("middle"))));
}

#[test]
fn schedule_ignores_a_completion_while_nothing_runs() {
    let mut schedule = Scheduler::new(2, work(1)).unwrap();
    schedule.complete(DownloadOutcome::Failure(broken("nobody")));
    assert_eq!(schedule.running(), 0);
    assert_eq!(schedule.dispatch(), Dispatch::Start(job(0)));
    schedule.complete(DownloadOutcome::Success);
    schedule.complete(DownloadOutcome::Failure(broken("nobody")));
    assert_eq!(schedule.dispatch(), Dispatch::Finished(Ok(())));
}

#[test]
fn jobs_are_planned_one_for_each_asset_in_order() {
    let assets = ResolvedAssets::new()
        .insert("p1".to_string(), AssetReference { url: "https://cdn/a.mp4".to_string(), width: 720 })
        .insert("p3".to_string(), AssetReference { url: "https://cdn/b.m3u8".to_string(), width: 1080 });
    assert_eq!(
        plan_jobs(&assets, "videos"),
        vec![
            DownloadJob {
                post_id: "p1".to_string(),
                asset_url: "https://cdn/a.mp4".to_string(),
                output_dir: "videos".to_string(),
            },
            DownloadJob {
                post_id: "p3".to_string(),
                asset_url: "https://cdn/b.m3u8".to_string(),
                output_dir: "videos".to_string(),
            },
        ]
    );
    assert_eq!(plan_jobs(&ResolvedAssets::new(), "videos"), vec![]);
}

#[test]
fn job_begins_by_asking_for_its_final_file() {
    let download = job(4).begin();
    assert_eq!(download.post_id, "p4");
    assert_eq!(download.video_url, "https://cdn/4.mp4");
    assert_eq!(download.final_path, "out/p4.mp4");
    assert_eq!(download.temp_path, "out/p4.mp4.tmp");
    assert_eq!(download.action(), DownloadAction::CheckExists { path: "out/p4.mp4".to_string() });
}
