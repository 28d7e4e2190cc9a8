use std::sync::Arc;
use std::sync::Mutex;

use ris_engine::job::Job;
use ris_engine::job_buffer::JobBuffer;

//-----------------------------//
//                             //
//    single threaded tests    //
//                             //
//-----------------------------//

#[test]
fn should_push_and_pop() {
    let job_buffer = JobBuffer::new(4);

    let data = Arc::new(Mutex::new(0));
    let moved_data = data.clone();
    let job = Job::new(move || *moved_data.lock().unwrap() = 42);

    let push = job_buffer.push(job);
    assert!(push.is_ok());

    let job = job_buffer.wait_and_pop();
    assert!(job.is_ok());
    job.unwrap().invoke();
    assert_eq!(*data.lock().unwrap(), 42);
}

#[test]
fn should_push_and_steal() {
    let job_buffer = JobBuffer::new(4);

    let data = Arc::new(Mutex::new(0));
    let moved_data = data.clone();
    let job = Job::new(move || *moved_data.lock().unwrap() = 42);

    let push = job_buffer.push(job);
    assert!(push.is_ok());

    let job = job_buffer.steal();
    assert!(job.is_ok());
    job.unwrap().invoke();
    assert_eq!(*data.lock().unwrap(), 42);
}

#[test]
fn should_push_till_full() {
    let job_buffer = JobBuffer::new(2);

    let data = Arc::new(Mutex::new(0));
    let moved_data1 = data.clone();
    let moved_data2 = data.clone();
    let moved_data3 = data.clone();

    let job1 = Job::new(move || *moved_data1.lock().unwrap() = 1);
    let job2 = Job::new(move || *moved_data2.lock().unwrap() = 2);
    let job3 = Job::new(move || *moved_data3.lock().unwrap() = 3);

    let push1 = job_buffer.push(job1);
    let push2 = job_buffer.push(job2);
    let push3 = job_buffer.push(job3);

    assert!(push1.is_ok());
    assert!(push2.is_ok());
    assert!(push3.is_err());

    push3.err().unwrap().not_pushed.invoke();
    assert_eq!(*data.lock().unwrap(), 3);
}

#[test]
fn should_pop_till_empty() {
    let job_buffer = JobBuffer::new(4);

    let data = Arc::new(Mutex::new(0));
    let moved_data1 = data.clone();
    let moved_data2 = data.clone();

    let job1 = Job::new(move || *moved_data1.lock().unwrap() = 1);
    let job2 = Job::new(move || *moved_data2.lock().unwrap() = 2);

    let _ = job_buffer.push(job1);
    let _ = job_buffer.push(job2);

    let pop1 = job_buffer.wait_and_pop();
    let pop2 = job_buffer.wait_and_pop();
    let pop3 = job_buffer.wait_and_pop();

    assert!(pop1.is_ok());
    assert!(pop2.is_ok());
    assert!(pop3.is_err());

    pop1.ok().unwrap().invoke();
    assert_eq!(*data.lock().unwrap(), 2);
    pop2.ok().unwrap().invoke();
    assert_eq!(*data.lock().unwrap(), 1);
}

#[test]
fn should_steal_till_empty() {
    let job_buffer = JobBuffer::new(4);

    let data = Arc::new(Mutex::new(0));
    let moved_data1 = data.clone();
    let moved_data2 = data.clone();

    let job1 = Job::new(move || *moved_data1.lock().unwrap() = 1);
    let job2 = Job::new(move || *moved_data2.lock().unwrap() = 2);

    let _ = job_buffer.push(job1);
    let _ = job_buffer.push(job2);

    let steal1 = job_buffer.steal();
    let steal2 = job_buffer.steal();
    let steal3 = job_buffer.steal();

    assert!(steal1.is_ok());
    assert!(steal2.is_ok());
    assert!(steal3.is_err());

    steal1.ok().unwrap().invoke();
    assert_eq!(*data.lock().unwrap(), 1);
    steal2.ok().unwrap().invoke();
    assert_eq!(*data.lock().unwrap(), 2);
}

#[test]
fn should_push_pop_and_steal_multiple_times() {
    let job_buffer = JobBuffer::new(5);

    for _ in 0..5 {
        let data = Arc::new(Mutex::new(0));
        let moved_data1 = data.clone();
        let moved_data2 = data.clone();
        let moved_data3 = data.clone();
        let moved_data4 = data.clone();
        let moved_data5 = data.clone();
        let moved_data6 = data.clone();

        let job1 = Job::new(move || *moved_data1.lock().unwrap() = 1);
        let job2 = Job::new(move || *moved_data2.lock().unwrap() = 2);
        let job3 = Job::new(move || *moved_data3.lock().unwrap() = 3);
        let job4 = Job::new(move || *moved_data4.lock().unwrap() = 4);
        let job5 = Job::new(move || *moved_data5.lock().unwrap() = 5);
        let job6 = Job::new(move || *moved_data6.lock().unwrap() = 6);

        let push1 = job_buffer.push(job1);
        let push2 = job_buffer.push(job2);
        let push3 = job_buffer.push(job3);
        let push4 = job_buffer.push(job4);
        let push5 = job_buffer.push(job5);
        let push6 = job_buffer.push(job6);

        assert!(push1.is_ok());
        assert!(push2.is_ok());
        assert!(push3.is_ok());
        assert!(push4.is_ok());
        assert!(push5.is_ok());
        assert!(push6.is_err());

        push6.err().unwrap().not_pushed.invoke();
        assert_eq!(*data.lock().unwrap(), 6);

        let steal1 = job_buffer.steal();
        let pop2 = job_buffer.wait_and_pop();
        let steal3 = job_buffer.steal();
        let pop4 = job_buffer.wait_and_pop();
        let steal5 = job_buffer.steal();
        let pop6 = job_buffer.wait_and_pop();
        let steal7 = job_buffer.steal();

        assert!(steal1.is_ok());
        assert!(pop2.is_ok());
        assert!(steal3.is_ok());
        assert!(pop4.is_ok());
        assert!(steal5.is_ok());
        assert!(pop6.is_err());
        assert!(steal7.is_err());

        steal1.ok().unwrap().invoke();
        assert_eq!(*data.lock().unwrap(), 1);
        pop2.ok().unwrap().invoke();
        assert_eq!(*data.lock().unwrap(), 5);
        steal3.ok().unwrap().invoke();
        assert_eq!(*data.lock().unwrap(), 2);
        pop4.ok().unwrap().invoke();
        assert_eq!(*data.lock().unwrap(), 4);
        steal5.ok().unwrap().invoke();
        assert_eq!(*data.lock().unwrap(), 3);
    }
}

#[test]
fn should_push_to_original_and_pop_from_duplicate() {
    let original_buffer = JobBuffer::new(4);
    let duplicated_buffer = &original_buffer;

    let data = Arc::new(Mutex::new(0));
    let moved_data1 = data.clone();
    let moved_data2 = data.clone();

    let job1 = Job::new(move || *moved_data1.lock().unwrap() = 1);
    let job2 = Job::new(move || *moved_data2.lock().unwrap() = 2);

    let push1 = original_buffer.push(job1);
    let push2 = original_buffer.push(job2);

    assert!(push1.is_ok());
    assert!(push2.is_ok());

    let pop1 = duplicated_buffer.wait_and_pop();
    let steal2 = duplicated_buffer.steal();

    assert!(pop1.is_ok());
    assert!(steal2.is_ok());

    pop1.unwrap().invoke();
    assert_eq!(*data.lock().unwrap(), 2);
    steal2.unwrap().invoke();
    assert_eq!(*data.lock().unwrap(), 1);
}

#[test]
fn should_push_to_duplicate_and_pop_from_original() {
    let original_buffer = JobBuffer::new(4);
    let duplicated_buffer = original_buffer.duplicate();

    let data = Arc::new(Mutex::new(0));
    let moved_data1 = data.clone();
    let moved_data2 = data.clone();

    let job1 = Job::new(move || *moved_data1.lock().unwrap() = 1);
    let job2 = Job::new(move || *moved_data2.lock().unwrap() = 2);

    let push1 = duplicated_buffer.push(job1);
    let push2 = duplicated_buffer.push(job2);

    assert!(push1.is_ok());
    assert!(push2.is_ok());

    let pop1 = original_buffer.steal();
    let steal2 = original_buffer.wait_and_pop();

    assert!(pop1.is_ok());
    assert!(steal2.is_ok());

    pop1.unwrap().invoke();
    assert_eq!(*data.lock().unwrap(), 1);
    steal2.unwrap().invoke();
    assert_eq!(*data.lock().unwrap(), 2);
}

//--------------------------------//
//                                //
//    laws, on concrete values    //
//                                //
//--------------------------------//

fn marking_job(log: &Arc<Mutex<Vec<usize>>>, mark: usize) -> Job {
    let log = log.clone();
    Job::new(move || log.lock().unwrap().push(mark))
}

#[test]
fn should_accept_exactly_capacity_jobs() {
    for capacity in 1..=16usize {
        let job_buffer = JobBuffer::new(capacity);
        assert_eq!(job_buffer.capacity(), capacity);
        let log = Arc::new(Mutex::new(Vec::new()));

        for mark in 0..capacity {
            assert!(job_buffer.push(marking_job(&log, mark)).is_ok());
        }

        let rejected = job_buffer.push(marking_job(&log, capacity));
        assert!(rejected.is_err());
        rejected.err().unwrap().not_pushed.invoke();
        assert_eq!(*log.lock().unwrap(), vec![capacity]);

        // the rejected push changed nothing: the newest job is still the
        // last one that was accepted
        job_buffer.wait_and_pop().ok().unwrap().invoke();
        assert_eq!(*log.lock().unwrap(), vec![capacity, capacity - 1]);
    }
}

#[test]
fn should_reject_everything_without_slots() {
    let job_buffer = JobBuffer::new(0);
    let log = Arc::new(Mutex::new(Vec::new()));

    let rejected = job_buffer.push(marking_job(&log, 7));
    assert!(rejected.is_err());
    assert!(job_buffer.wait_and_pop().is_err());
    assert!(job_buffer.steal().is_err());

    rejected.err().unwrap().not_pushed.invoke();
    assert_eq!(*log.lock().unwrap(), vec![7]);
}

#[test]
fn should_pop_in_reverse_order_of_push() {
    let job_buffer = JobBuffer::new(8);
    let log = Arc::new(Mutex::new(Vec::new()));

    for mark in 0..8 {
        assert!(job_buffer.push(marking_job(&log, mark)).is_ok());
    }
    for _ in 0..8 {
        job_buffer.wait_and_pop().ok().unwrap().invoke();
    }

    assert_eq!(*log.lock().unwrap(), vec![7, 6, 5, 4, 3, 2, 1, 0]);
    assert!(job_buffer.wait_and_pop().is_err());
}

#[test]
fn should_steal_in_order_of_push() {
    let job_buffer = JobBuffer::new(8);
    let log = Arc::new(Mutex::new(Vec::new()));

    for mark in 0..8 {
        assert!(job_buffer.push(marking_job(&log, mark)).is_ok());
    }
    for _ in 0..8 {
        job_buffer.steal().ok().unwrap().invoke();
    }

    assert_eq!(*log.lock().unwrap(), vec![0, 1, 2, 3, 4, 5, 6, 7]);
    assert!(job_buffer.steal().is_err());
}

#[test]
fn should_keep_order_around_the_ring() {
    let job_buffer = JobBuffer::new(3);
    let log = Arc::new(Mutex::new(Vec::new()));

    // move both indices around the ring several times
    for round in 0..10 {
        assert!(job_buffer.push(marking_job(&log, 2 * round)).is_ok());
        assert!(job_buffer.push(marking_job(&log, 2 * round + 1)).is_ok());
        job_buffer.steal().ok().unwrap().invoke();
        job_buffer.steal().ok().unwrap().invoke();
        assert!(job_buffer.steal().is_err());
    }

    let expected: Vec<usize> = (0..20).collect();
    assert_eq!(*log.lock().unwrap(), expected);
}

#[test]
fn should_pop_b_then_a() {
    let job_buffer = JobBuffer::new(4);
    let log = Arc::new(Mutex::new(Vec::new()));
    let a = 1;
    let b = 2;

    assert!(job_buffer.push(marking_job(&log, a)).is_ok());
    assert!(job_buffer.push(marking_job(&log, b)).is_ok());

    let first = job_buffer.wait_and_pop();
    let second = job_buffer.wait_and_pop();
    let third = job_buffer.wait_and_pop();

    assert!(first.is_ok());
    assert!(second.is_ok());
    assert!(third.is_err());

    first.ok().unwrap().invoke();
    assert_eq!(*log.lock().unwrap(), vec![b]);
    second.ok().unwrap().invoke();
    assert_eq!(*log.lock().unwrap(), vec![b, a]);
}

#[test]
fn should_run_the_rejected_job() {
    let job_buffer = JobBuffer::new(2);
    let log = Arc::new(Mutex::new(Vec::new()));

    assert!(job_buffer.push(marking_job(&log, 1)).is_ok());
    assert!(job_buffer.push(marking_job(&log, 2)).is_ok());
    let rejected = job_buffer.push(marking_job(&log, 3));
    assert!(rejected.is_err());

    rejected.err().unwrap().not_pushed.invoke();
    assert_eq!(*log.lock().unwrap(), vec![3]);
}

#[test]
fn should_find_nothing_in_a_fresh_buffer() {
    let job_buffer = JobBuffer::new(1000);

    for _ in 0..1000 {
        assert!(job_buffer.duplicate().steal().is_err());
    }

    assert!(job_buffer.wait_and_pop().is_err());
}

#[test]
fn should_share_storage_between_clones() {
    let original = JobBuffer::new(4);
    let clone = original.clone();
    let log = Arc::new(Mutex::new(Vec::new()));

    assert_eq!(clone.capacity(), 4);
    assert!(original.push(marking_job(&log, 1)).is_ok());
    assert!(clone.push(marking_job(&log, 2)).is_ok());
    assert!(original.push(marking_job(&log, 3)).is_ok());
    assert!(clone.push(marking_job(&log, 4)).is_ok());
    assert!(original.push(marking_job(&log, 5)).is_err());
    assert!(clone.push(marking_job(&log, 6)).is_err());

    clone.steal().ok().unwrap().invoke();
    original.wait_and_pop().ok().unwrap().invoke();
    original.steal().ok().unwrap().invoke();
    clone.wait_and_pop().ok().unwrap().invoke();
    assert!(original.steal().is_err());
    assert!(clone.wait_and_pop().is_err());

    assert_eq!(*log.lock().unwrap(), vec![1, 4, 2, 3]);
}

#[test]
fn should_deliver_each_job_once_when_drained() {
    let jobs = 5;
    let job_buffer = JobBuffer::new(8);
    let log = Arc::new(Mutex::new(Vec::new()));
    for mark in 0..jobs {
        assert!(job_buffer.push(marking_job(&log, mark)).is_ok());
    }

    let mut successes = 0;
    let mut failures = 0;
    for attempt in 0..12 {
        let taken = if attempt % 3 == 0 {
            job_buffer.wait_and_pop()
        } else {
            job_buffer.steal()
        };
        match taken {
            Ok(job) => {
                successes += 1;
                job.invoke();
            }
            Err(_) => failures += 1,
        }
    }

    assert_eq!(successes, jobs);
    assert_eq!(failures, 12 - jobs);
    let mut delivered = log.lock().unwrap().clone();
    delivered.sort();
    assert_eq!(delivered, vec![0, 1, 2, 3, 4]);
}

#[test]
fn should_conserve_jobs() {
    let job_buffer = JobBuffer::new(3);
    let log = Arc::new(Mutex::new(Vec::new()));

    let mut pushed = Vec::new();
    let mut rejected = 0;
    let mut pops = 0;
    let mut steals = 0;
    for step in 0..200usize {
        // an arbitrary but fixed mix of the three operations
        match (step * 7 + step / 3) % 5 {
            0 | 1 | 2 => match job_buffer.push(marking_job(&log, step)) {
                Ok(()) => pushed.push(step),
                Err(_) => rejected += 1,
            },
            3 => {
                if let Ok(job) = job_buffer.wait_and_pop() {
                    pops += 1;
                    job.invoke();
                }
            }
            _ => {
                if let Ok(job) = job_buffer.steal() {
                    steals += 1;
                    job.invoke();
                }
            }
        }
    }
    let mut left = 0;
    while let Ok(job) = job_buffer.steal() {
        left += 1;
        job.invoke();
    }

    assert!(rejected > 0);
    assert!(left <= 3);
    assert_eq!(pops + steals + left, pushed.len());
    let mut delivered = log.lock().unwrap().clone();
    delivered.sort();
    assert_eq!(delivered, pushed);
}

#[test]
fn should_steal_through_a_stealer() {
    let job_buffer = JobBuffer::new(4);
    let stealer = job_buffer.stealer();
    let second = stealer.clone();
    let log = Arc::new(Mutex::new(Vec::new()));

    assert!(stealer.steal().is_err());
    assert!(job_buffer.push(marking_job(&log, 1)).is_ok());
    assert!(job_buffer.push(marking_job(&log, 2)).is_ok());
    assert!(job_buffer.push(marking_job(&log, 3)).is_ok());

    stealer.steal().ok().unwrap().invoke();
    second.steal().ok().unwrap().invoke();
    job_buffer.steal().ok().unwrap().invoke();
    assert!(second.steal().is_err());
    assert_eq!(*log.lock().unwrap(), vec![1, 2, 3]);
}
