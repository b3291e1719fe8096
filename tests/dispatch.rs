use mail_shard::alert::{alert_for, ClassifyError};
use mail_shard::dispatch::{Command, Dispatcher, Phase, ShardConfig, UnitOutcome};
use mail_shard::mail::ParsedEmail;

fn ids(n: usize) -> Vec<String> {
    (0..n).map(|i| format!("m{}", i)).collect()
}

#[test]
fn config_is_checked() {
    assert!(ShardConfig::new(0, 0, 4, 10, 10).is_none());
    assert!(ShardConfig::new(3, 3, 4, 10, 10).is_none());
    assert!(ShardConfig::new(0, 1, 0, 10, 10).is_none());
    let c = ShardConfig::new(2, 3, 4, 10, 5).unwrap();
    assert_eq!((c.worker_id, c.total, c.concurrency, c.poll_interval_secs, c.backoff_secs), (2, 3, 4, 10, 5));
}

#[test]
fn third_unit_waits_for_a_permit() {
    let mut d = Dispatcher::new(ShardConfig::new(0, 1, 2, 10, 10).unwrap());
    assert_eq!(d.next_command(), Command::Poll);
    d.fetched(&ids(3));
    assert_eq!(d.next_command(), Command::Launch(0));
    assert_eq!(d.next_command(), Command::Launch(1));
    assert_eq!(d.in_flight(), 2);
    assert_eq!(d.next_command(), Command::AwaitCompletion);
    assert_eq!(d.next_command(), Command::AwaitCompletion);
    d.unit_finished(UnitOutcome::Notified);
    assert_eq!(d.in_flight(), 1);
    assert_eq!(d.next_command(), Command::Launch(2));
    assert_eq!(d.in_flight(), 2);
    assert_eq!(d.next_command(), Command::Sleep(10));
    assert_eq!(d.phase(), Phase::Polling);
}

#[test]
fn in_flight_never_exceeds_limit() {
    let mut d = Dispatcher::new(ShardConfig::new(0, 1, 3, 10, 10).unwrap());
    let mut polls = 0;
    let mut steps = 0;
    while polls < 3 && steps < 200 {
        steps += 1;
        match d.next_command() {
            Command::Poll => {
                polls += 1;
                d.fetched(&ids(5));
            }
            Command::AwaitCompletion => d.unit_finished(UnitOutcome::NotifyFailed),
            Command::Launch(_) | Command::Sleep(_) => {}
        }
        assert!(d.in_flight() <= 3);
    }
    assert_eq!(polls, 3);
}

#[test]
fn timed_out_unit_releases_permit_without_notifying() {
    let mut d = Dispatcher::new(ShardConfig::new(0, 1, 1, 10, 10).unwrap());
    assert_eq!(d.next_command(), Command::Poll);
    d.fetched(&ids(2));
    assert_eq!(d.next_command(), Command::Launch(0));
    let em = ParsedEmail::new("m0".to_string(), None, None, None, Vec::new());
    assert!(alert_for(&em, &Err(ClassifyError::Timeout), Some("0")).is_none());
    assert_eq!(d.next_command(), Command::AwaitCompletion);
    d.unit_finished(UnitOutcome::ClassifyFailed);
    assert_eq!(d.in_flight(), 0);
    assert_eq!(d.next_command(), Command::Launch(1));
}

#[test]
fn failure_of_one_unit_skips_no_other() {
    let mut a = Dispatcher::new(ShardConfig::new(0, 1, 2, 10, 10).unwrap());
    let mut b = Dispatcher::new(ShardConfig::new(0, 1, 2, 10, 10).unwrap());
    for d in [&mut a, &mut b] {
        d.next_command();
        d.fetched(&ids(4));
        assert_eq!(d.next_command(), Command::Launch(0));
        assert_eq!(d.next_command(), Command::Launch(1));
    }
    a.unit_finished(UnitOutcome::ClassifyFailed);
    b.unit_finished(UnitOutcome::Notified);
    assert_eq!(a.next_command(), Command::Launch(2));
    assert_eq!(b.next_command(), Command::Launch(2));
    assert_eq!(a.in_flight(), b.in_flight());
}

#[test]
fn failed_poll_backs_off_and_retries() {
    let mut d = Dispatcher::new(ShardConfig::new(0, 1, 4, 10, 7).unwrap());
    for _ in 0..5 {
        assert_eq!(d.next_command(), Command::Poll);
        d.fetch_failed();
        assert_eq!(d.phase(), Phase::Backoff);
        assert_eq!(d.next_command(), Command::Sleep(7));
    }
    assert_eq!(d.next_command(), Command::Poll);
}

#[test]
fn empty_poll_sleeps_the_interval() {
    let mut d = Dispatcher::new(ShardConfig::new(0, 1, 4, 10, 7).unwrap());
    assert_eq!(d.next_command(), Command::Poll);
    d.fetched(&Vec::new());
    assert_eq!(d.next_command(), Command::Sleep(10));
    assert_eq!(d.next_command(), Command::Poll);
}
