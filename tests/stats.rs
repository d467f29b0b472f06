use libafl::stats::{current_time, format_status, ClientStats, SimpleStats, Stats, TimeSpan};

fn secs(s: u64) -> TimeSpan {
    TimeSpan::from_secs(s)
}

#[test]
fn rate_is_cached_within_window_and_recomputed_after() {
    let mut c = ClientStats::starting_at(secs(100));
    c.update_executions(10, secs(100));
    // No whole second has passed: the cached rate (0) both times.
    assert_eq!(c.execs_per_sec(TimeSpan::from_nanos(100_000_000_000 + 200_000_000)), 0);
    c.update_executions(50, TimeSpan::from_nanos(100_000_000_000 + 500_000_000));
    assert_eq!(c.execs_per_sec(TimeSpan::from_nanos(100_000_000_000 + 900_000_000)), 0);
    // Inside the window after whole seconds, the rate is fresh but not stored.
    assert_eq!(c.execs_per_sec(secs(102)), 25);
    assert_eq!(c.last_execs_per_sec, 0);
    // After the window (more than 5 s), the rate is recomputed and stored.
    c.update_executions(600, secs(106));
    assert_eq!(c.last_execs_per_sec, 100);
    assert_eq!(c.last_window_time, secs(106));
    assert_eq!(c.last_window_executions, 600);
    assert_eq!(c.execs_per_sec(TimeSpan::from_nanos(106_500_000_000)), 100);
    c.update_executions(1200, secs(112));
    assert_eq!(c.last_execs_per_sec, 100);
}

#[test]
fn no_executions_means_zero_rate() {
    let c = ClientStats::starting_at(secs(0));
    assert_eq!(c.execs_per_sec(secs(1000)), 0);
}

#[test]
fn exactly_five_seconds_does_not_close_window() {
    let mut c = ClientStats::starting_at(secs(10));
    c.update_executions(100, secs(15));
    assert_eq!(c.last_window_time, secs(10));
    assert_eq!(c.executions, 100);
}

#[test]
fn aggregate_over_clients() {
    let mut s = SimpleStats::with_time(secs(0));
    {
        let c = s.client_stats_mut_for(2, secs(0));
        c.corpus_size = 3;
        c.update_executions(60, secs(0));
    }
    assert_eq!(s.client_stats().len(), 3);
    s.client_stats_mut_for(0, secs(0)).corpus_size = 4;
    assert_eq!(s.client_stats().len(), 3);
    assert_eq!(s.corpus_size(), 7);
    assert_eq!(s.total_execs(), 60);
    assert_eq!(s.execs_per_sec(secs(3)), 20);
    assert_eq!(s.start_time(), secs(0));
    let line = s.display("test".to_string(), secs(3));
    assert_eq!(line, "[test] clients: 3, corpus: 7, executions: 60, exec/sec: 20");
}

#[test]
fn status_line_format() {
    assert_eq!(
        format_status("x", 0, 10, 1234567, u64::MAX),
        "[x] clients: 0, corpus: 10, executions: 1234567, exec/sec: 18446744073709551615"
    );
}

#[test]
fn totals_saturate() {
    let mut s = SimpleStats::with_time(secs(0));
    s.client_stats_mut_for(0, secs(0)).corpus_size = u64::MAX;
    s.client_stats_mut_for(1, secs(0)).corpus_size = 5;
    assert_eq!(s.corpus_size(), u64::MAX);
}

#[test]
fn new_stats_start_now() {
    let mut s = SimpleStats::new();
    assert!(s.client_stats().is_empty());
    assert!(s.start_time().nanos > 0);
    assert!(current_time().nanos >= s.start_time().nanos);
    assert_eq!(TimeSpan::from_nanos(2_500_000_000).as_secs(), 2);
}

#[test]
fn client_stats_mut_gives_the_vector() {
    let mut s = SimpleStats::with_time(secs(1));
    s.client_stats_mut().push(ClientStats::starting_at(secs(1)));
    s.client_stats_mut()[0].corpus_size = 9;
    assert_eq!(s.corpus_size(), 9);
    assert_eq!(s.client_stats_mut_for(0, secs(5)).corpus_size, 9);
}

#[test]
fn start_time_reads_back() {
    let mut s = SimpleStats::with_time(secs(7));
    assert_eq!(s.start_time(), secs(7));
}

#[test]
fn no_executions_needs_no_ordered_clock() {
    let c = ClientStats::starting_at(secs(50));
    // A reading before the window start is fine while nothing has run.
    assert_eq!(c.execs_per_sec(secs(10)), 0);
}
