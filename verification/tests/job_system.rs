use std::sync::Arc;
use std::sync::Mutex;

use ris_engine::job::Job;
use ris_engine::job_buffer::JobBuffer;
use ris_engine::job_buffer::Stealer;
use ris_engine::job_system::decide;
use ris_engine::job_system::thread_count;
use ris_engine::job_system::JobSystem;
use ris_engine::job_system::Step;
use ris_engine::job_system::Worker;
use ris_engine::job_system::WorkerState;

fn tracing_job(log: &Arc<Mutex<Vec<usize>>>, mark: usize) -> Job {
    let log = log.clone();
    Job::new(move || log.lock().unwrap().push(mark))
}

#[test]
fn thread_count_is_clamped() {
    assert_eq!(thread_count(8, 4), 4);
    assert_eq!(thread_count(8, 8), 8);
    assert_eq!(thread_count(8, 9), 8);
    assert_eq!(thread_count(8, usize::MAX), 8);
    assert_eq!(thread_count(8, 1), 1);
    assert_eq!(thread_count(8, 0), 1);
    assert_eq!(thread_count(1, 4), 1);
    assert_eq!(thread_count(0, 4), 1);
    assert_eq!(thread_count(0, 0), 1);
}

#[test]
fn decision_follows_shutdown_then_job() {
    let (state, step) = decide(false, None);
    assert_eq!(state, WorkerState::Idle);
    assert!(matches!(step, Step::Park));

    let (state, step) = decide(false, Some(Job::new(|| {})));
    assert_eq!(state, WorkerState::Executing);
    assert!(matches!(step, Step::Run(_)));

    let (state, step) = decide(true, None);
    assert_eq!(state, WorkerState::ShuttingDown);
    assert!(matches!(step, Step::Stop));

    let (state, step) = decide(true, Some(Job::new(|| {})));
    assert_eq!(state, WorkerState::ShuttingDown);
    assert!(matches!(step, Step::Stop));
}

#[test]
fn system_has_a_buffer_for_each_thread() {
    let system = JobSystem::init(16, 4, 3);
    assert_eq!(system.threads(), 3);
    assert!(system.worker(3).is_none());

    for index in 0..3 {
        let worker = system.worker(index).unwrap();
        assert_eq!(worker.index(), index);
        assert_eq!(worker.state(), WorkerState::Idle);
    }
}

#[test]
fn system_always_serves_the_calling_thread() {
    let system = JobSystem::init(4, 0, 0);
    assert_eq!(system.threads(), 1);

    let log = Arc::new(Mutex::new(Vec::new()));
    let mut main = system.worker(0).unwrap();
    assert!(main.submit(tracing_job(&log, 1)).is_ok());
    match main.next(false) {
        Step::Run(job) => job.invoke(),
        _ => panic!("the submitted job was not found"),
    }
    main.finish();
    assert!(matches!(main.next(false), Step::Park));
    assert_eq!(*log.lock().unwrap(), vec![1]);
}

#[test]
fn submit_hands_back_what_does_not_fit() {
    let system = JobSystem::init(2, 2, 2);
    let worker = system.worker(1).unwrap();
    let log = Arc::new(Mutex::new(Vec::new()));

    assert!(worker.submit(tracing_job(&log, 1)).is_ok());
    assert!(worker.submit(tracing_job(&log, 2)).is_ok());
    let rejected = worker.submit(tracing_job(&log, 3));
    assert!(rejected.is_err());
    rejected.err().unwrap().not_pushed.invoke();
    assert_eq!(*log.lock().unwrap(), vec![3]);
}

#[test]
fn worker_pops_its_own_jobs_newest_first() {
    let system = JobSystem::init(8, 2, 2);
    let mut worker = system.worker(0).unwrap();
    let log = Arc::new(Mutex::new(Vec::new()));

    for mark in 0..3 {
        assert!(worker.submit(tracing_job(&log, mark)).is_ok());
    }
    for _ in 0..3 {
        match worker.next(false) {
            Step::Run(job) => {
                assert_eq!(worker.state(), WorkerState::Executing);
                job.invoke();
                worker.finish();
                assert_eq!(worker.state(), WorkerState::Idle);
            }
            _ => panic!("a job was queued"),
        }
    }
    assert!(matches!(worker.next(false), Step::Park));
    assert_eq!(worker.state(), WorkerState::Idle);
    assert_eq!(*log.lock().unwrap(), vec![2, 1, 0]);
}

#[test]
fn worker_steals_the_oldest_job_of_a_peer() {
    let system = JobSystem::init(8, 3, 3);
    let owner = system.worker(2).unwrap();
    let mut thief = system.worker(0).unwrap();
    let log = Arc::new(Mutex::new(Vec::new()));

    for mark in 0..3 {
        assert!(owner.submit(tracing_job(&log, mark)).is_ok());
    }
    for _ in 0..3 {
        match thief.next(false) {
            Step::Run(job) => job.invoke(),
            _ => panic!("a peer had a job"),
        }
        thief.finish();
    }
    assert!(matches!(thief.next(false), Step::Park));
    assert_eq!(*log.lock().unwrap(), vec![0, 1, 2]);
}

#[test]
fn worker_prefers_its_own_buffer() {
    let system = JobSystem::init(8, 2, 2);
    let peer = system.worker(1).unwrap();
    let mut worker = system.worker(0).unwrap();
    let log = Arc::new(Mutex::new(Vec::new()));

    assert!(peer.submit(tracing_job(&log, 10)).is_ok());
    assert!(worker.submit(tracing_job(&log, 20)).is_ok());

    for _ in 0..2 {
        match worker.next(false) {
            Step::Run(job) => job.invoke(),
            _ => panic!("a job was queued"),
        }
        worker.finish();
    }
    assert_eq!(*log.lock().unwrap(), vec![20, 10]);
}

#[test]
fn stealing_goes_round_the_peers() {
    let own = JobBuffer::new(4);
    let peers = vec![JobBuffer::new(4), JobBuffer::new(4), JobBuffer::new(4)];
    let handles: Vec<Stealer> = peers.iter().map(|peer| peer.stealer()).collect();
    let mut worker = Worker::new(0, own, handles);
    let log = Arc::new(Mutex::new(Vec::new()));

    // nothing anywhere: every peer is tried once
    let stolen = worker.steal_from_peers();
    assert!(stolen.job.is_none());
    assert_eq!(stolen.attempts, 3);
    assert_eq!(worker.searched(), 3);

    // a job at the last peer is found at the third attempt
    assert!(peers[2].push(tracing_job(&log, 2)).is_ok());
    let stolen = worker.steal_from_peers();
    assert_eq!(stolen.attempts, 3);
    stolen.job.unwrap().invoke();

    // the next round starts behind the peer tried last, which is the first
    // peer again
    assert!(peers[0].push(tracing_job(&log, 0)).is_ok());
    assert!(peers[1].push(tracing_job(&log, 1)).is_ok());
    let stolen = worker.steal_from_peers();
    assert_eq!(stolen.attempts, 1);
    stolen.job.unwrap().invoke();

    // and now with the second peer
    assert!(peers[0].push(tracing_job(&log, 10)).is_ok());
    let stolen = worker.steal_from_peers();
    assert_eq!(stolen.attempts, 1);
    stolen.job.unwrap().invoke();

    // the round that starts at the third peer comes round to the first
    let stolen = worker.steal_from_peers();
    assert_eq!(stolen.attempts, 2);
    stolen.job.unwrap().invoke();

    assert_eq!(*log.lock().unwrap(), vec![2, 0, 1, 10]);
}

#[test]
fn worker_without_peers_steals_nothing() {
    let mut worker = Worker::new(0, JobBuffer::new(4), Vec::new());
    let stolen = worker.steal_from_peers();
    assert!(stolen.job.is_none());
    assert_eq!(stolen.attempts, 0);
    assert!(matches!(worker.next(false), Step::Park));
}

#[test]
fn shutdown_leaves_queued_jobs_unrun() {
    let system = JobSystem::init(8, 2, 2);
    let mut worker = system.worker(0).unwrap();
    let log = Arc::new(Mutex::new(Vec::new()));

    assert!(worker.submit(tracing_job(&log, 1)).is_ok());
    assert!(matches!(worker.next(true), Step::Stop));
    assert_eq!(worker.state(), WorkerState::ShuttingDown);

    // once stopped, always stopped
    assert!(matches!(worker.next(false), Step::Stop));
    worker.finish();
    assert_eq!(worker.state(), WorkerState::ShuttingDown);
    assert!(log.lock().unwrap().is_empty());
}

#[test]
fn search_moves_on_by_the_peers_it_tried() {
    let own = JobBuffer::new(4);
    let peers = vec![JobBuffer::new(4), JobBuffer::new(4), JobBuffer::new(4)];
    let handles: Vec<Stealer> = peers.iter().map(|peer| peer.stealer()).collect();
    let mut worker = Worker::new(0, own.duplicate(), handles);
    let log = Arc::new(Mutex::new(Vec::new()));
    assert_eq!(worker.searched(), 0);

    // a worker that parks has tried every peer, and starts where it started
    assert!(matches!(worker.next(false), Step::Park));
    assert_eq!(worker.searched(), 3);

    // a job at the second peer is found at the second attempt
    assert!(peers[1].push(tracing_job(&log, 1)).is_ok());
    assert!(matches!(worker.next(false), Step::Run(_)));
    assert_eq!(worker.searched(), 2);
    worker.finish();
    assert_eq!(worker.searched(), 2);

    // the next round starts behind the second peer: the third peer is the
    // first to be tried, the first peer the second
    assert!(peers[0].push(tracing_job(&log, 0)).is_ok());
    assert!(peers[2].push(tracing_job(&log, 2)).is_ok());
    assert!(matches!(worker.next(false), Step::Run(_)));
    assert_eq!(worker.searched(), 1);
    worker.finish();
    assert!(matches!(worker.next(false), Step::Run(_)));
    assert_eq!(worker.searched(), 1);
    worker.finish();

    // a round without a job comes back to where it began: the second peer
    assert!(matches!(worker.next(false), Step::Park));
    assert_eq!(worker.searched(), 3);
    assert!(peers[1].push(tracing_job(&log, 11)).is_ok());
    assert!(matches!(worker.next(false), Step::Run(_)));
    assert_eq!(worker.searched(), 1);
    worker.finish();

    // the worker's own job needs no search, and neither does stopping
    assert!(own.push(tracing_job(&log, 9)).is_ok());
    assert!(matches!(worker.next(false), Step::Run(_)));
    assert_eq!(worker.searched(), 0);
    worker.finish();
    assert!(matches!(worker.next(true), Step::Stop));
    assert_eq!(worker.searched(), 0);
}
