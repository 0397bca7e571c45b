use rosemary::jobs::image_processing::{
    DispatchAction, JobDescriptor, JobManager, PoolState, QueueError, SubmitStatus,
};

fn descriptor(id: u128) -> JobDescriptor {
    JobDescriptor {
        id,
        source_path: String::from("/tmp/source.png"),
        output_name: String::from("source"),
        output_dir: String::from("/tmp/static"),
        widths: vec![1024, 640, 320],
    }
}

#[test]
fn submissions_queue_and_backpressure() {
    let mut manager = JobManager::new(2, 1);
    assert!(!manager.dispatcher_live());

    assert_eq!(manager.submit_job(descriptor(1)), Ok(SubmitStatus::Enqueued));
    assert!(manager.dispatcher_live());
    assert_eq!(manager.submit_job(descriptor(2)), Ok(SubmitStatus::Enqueued));
    // The queue is at capacity: the third submitter is asked to wait, and
    // its job is neither taken nor lost.
    assert_eq!(manager.submit_job(descriptor(3)), Ok(SubmitStatus::MustWait));
    assert_eq!(manager.queued_len(), 2);
}

#[test]
fn dispatcher_hands_jobs_out_in_order() {
    let mut manager = JobManager::new(4, 2);
    manager.submit_job(descriptor(1)).unwrap();
    manager.submit_job(descriptor(2)).unwrap();

    match manager.dispatcher_turn(false) {
        DispatchAction::RunJob(job) => assert_eq!(job.id, 1),
        _ => panic!("a queued job must be dispatched"),
    }
    // The turn after the spawn goes back to waiting.
    match manager.dispatcher_turn(false) {
        DispatchAction::KeepWaiting => {}
        _ => panic!("the dispatcher hands the spawned task over first"),
    }
    match manager.dispatcher_turn(false) {
        DispatchAction::RunJob(job) => assert_eq!(job.id, 2),
        _ => panic!("the second job follows"),
    }
    assert_eq!(manager.queued_len(), 0);
}

#[test]
fn permits_bound_concurrency() {
    let mut manager = JobManager::new(4, 1);
    manager.submit_job(descriptor(1)).unwrap();
    manager.submit_job(descriptor(2)).unwrap();
    assert_eq!(manager.permits_available(), 1);

    match manager.dispatcher_turn(false) {
        DispatchAction::RunJob(job) => assert_eq!(job.id, 1),
        _ => panic!("the first job gets the only permit"),
    }
    assert_eq!(manager.permits_available(), 0);
    manager.dispatcher_turn(false);

    // Every permit is taken: the dispatcher waits instead of dropping.
    match manager.dispatcher_turn(false) {
        DispatchAction::AwaitPermit => {}
        _ => panic!("no second job may run on one permit"),
    }
    assert_eq!(manager.queued_len(), 1);

    manager.job_finished();
    assert_eq!(manager.permits_available(), 1);
    match manager.dispatcher_turn(false) {
        DispatchAction::RunJob(job) => assert_eq!(job.id, 2),
        _ => panic!("the freed permit lets the next job run"),
    }
}

#[test]
fn idle_exit_and_lazy_restart() {
    let mut manager = JobManager::new(4, 1);
    manager.submit_job(descriptor(1)).unwrap();
    match manager.dispatcher_turn(false) {
        DispatchAction::RunJob(_) => {}
        _ => panic!("the job runs first"),
    }
    manager.dispatcher_turn(false);
    manager.job_finished();

    // Nothing came within the idle timeout: the loop checks and exits.
    match manager.dispatcher_turn(true) {
        DispatchAction::KeepWaiting => {}
        _ => panic!("a timeout leads to the idle check"),
    }
    match manager.dispatcher_turn(false) {
        DispatchAction::Exit => {}
        _ => panic!("idle with an empty queue frees the task"),
    }
    assert!(!manager.dispatcher_live());

    // The next submission revives the loop, so the job is not stranded.
    assert_eq!(manager.submit_job(descriptor(2)), Ok(SubmitStatus::Enqueued));
    assert!(manager.dispatcher_live());
    match manager.dispatcher_turn(false) {
        DispatchAction::RunJob(job) => assert_eq!(job.id, 2),
        _ => panic!("the revived loop drains the queue"),
    }
}

#[test]
fn idle_check_continues_when_work_appears() {
    let mut manager = JobManager::new(4, 1);
    manager.submit_job(descriptor(1)).unwrap();
    match manager.dispatcher_turn(false) {
        DispatchAction::RunJob(_) => {}
        _ => panic!("the job runs first"),
    }
    manager.dispatcher_turn(false);

    // The timeout fires, but a job arrives before the idle check.
    manager.dispatcher_turn(true);
    manager.submit_job(descriptor(2)).unwrap();
    match manager.dispatcher_turn(false) {
        DispatchAction::KeepWaiting => {}
        _ => panic!("work appeared: the loop keeps draining"),
    }
    assert!(manager.dispatcher_live());
    assert_eq!(manager.queued_len(), 1);
}

#[test]
fn shutdown_refuses_new_work_and_drains() {
    let mut manager = JobManager::new(4, 1);
    manager.submit_job(descriptor(1)).unwrap();
    manager.shutdown();

    assert_eq!(manager.submit_job(descriptor(2)), Err(QueueError::Closed));

    // What was accepted before the shutdown still runs.
    match manager.dispatcher_turn(false) {
        DispatchAction::RunJob(job) => assert_eq!(job.id, 1),
        _ => panic!("accepted work still runs after shutdown"),
    }
    manager.dispatcher_turn(false);
    match manager.dispatcher_turn(false) {
        DispatchAction::Exit => {}
        _ => panic!("a closed, drained queue ends the loop"),
    }
}

#[test]
fn backpressured_submission_lands_after_a_drain() {
    let mut manager = JobManager::new(1, 1);
    assert_eq!(manager.submit_job(descriptor(1)), Ok(SubmitStatus::Enqueued));
    assert_eq!(manager.submit_job(descriptor(2)), Ok(SubmitStatus::MustWait));

    match manager.dispatcher_turn(false) {
        DispatchAction::RunJob(job) => assert_eq!(job.id, 1),
        _ => panic!("the queued job drains first"),
    }
    manager.dispatcher_turn(false);

    // The suspended submitter offers the same job again and it lands.
    assert_eq!(manager.submit_job(descriptor(2)), Ok(SubmitStatus::Enqueued));
    manager.job_finished();
    match manager.dispatcher_turn(false) {
        DispatchAction::RunJob(job) => assert_eq!(job.id, 2),
        _ => panic!("the second job follows; nothing vanished"),
    }
    assert_eq!(manager.queued_len(), 0);
}

#[test]
fn pool_counts_permits() {
    let mut pool = PoolState::new(2);
    assert_eq!(pool.capacity(), 2);
    assert_eq!(pool.available(), 2);
    assert!(pool.try_acquire());
    assert!(pool.try_acquire());
    assert!(!pool.try_acquire());
    assert_eq!(pool.available(), 0);
    pool.release();
    assert_eq!(pool.available(), 1);
    assert!(pool.try_acquire());
}
