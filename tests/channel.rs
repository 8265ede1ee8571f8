use thread_pool::channel::{Received, WorkChannel};

fn job_of(r: Received<u32>) -> Option<u32> {
    match r {
        Received::Job(j) => Some(j),
        _ => None,
    }
}

#[test]
fn fresh_channel_is_open_and_empty() {
    let mut ch: WorkChannel<u32> = WorkChannel::new();
    assert!(!ch.is_closed());
    assert!(matches!(ch.recv(), Received::Empty));
}

#[test]
fn jobs_come_out_in_order_sent() {
    let mut ch = WorkChannel::new();
    for i in 0..5u32 {
        assert!(ch.send(i).is_ok());
    }
    for i in 0..5u32 {
        assert_eq!(job_of(ch.recv()), Some(i));
    }
    assert!(matches!(ch.recv(), Received::Empty));
}

#[test]
fn closed_channel_drains_before_reporting_closed() {
    let mut ch = WorkChannel::new();
    assert!(ch.send(7u32).is_ok());
    assert!(ch.send(8u32).is_ok());
    ch.close();
    assert!(ch.is_closed());
    assert_eq!(job_of(ch.recv()), Some(7));
    assert_eq!(job_of(ch.recv()), Some(8));
    assert!(matches!(ch.recv(), Received::Closed));
    assert!(matches!(ch.recv(), Received::Closed));
}

#[test]
fn send_after_close_hands_the_job_back() {
    let mut ch = WorkChannel::new();
    ch.close();
    assert_eq!(ch.send(42u32), Err(42));
    assert!(matches!(ch.recv(), Received::Closed));
}

#[test]
fn closing_twice_keeps_pending_jobs() {
    let mut ch = WorkChannel::new();
    assert!(ch.send(1u32).is_ok());
    ch.close();
    ch.close();
    assert_eq!(job_of(ch.recv()), Some(1));
    assert!(matches!(ch.recv(), Received::Closed));
}
