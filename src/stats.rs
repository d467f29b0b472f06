//! Per-client execution statistics and their aggregate.
use vstd::prelude::*;
use vstd::string::StringExecFns;

verus! {

/// The rolling window, in seconds, over which the execution rate is recomputed.
pub const CLIENT_STATS_TIME_WINDOW_SECS: u64 = 5;

/// Nanoseconds per second.
pub const NANOS_PER_SEC: u64 = 1000000000;

/// A point in time, or a span of time, in whole nanoseconds.
#[derive(Clone, Copy, Debug, PartialEq, Eq, Structural)]
pub struct TimeSpan {
    pub nanos: u64,
}

impl TimeSpan {
    /// A span of whole seconds.
    pub fn from_secs(secs: u64) -> (r: TimeSpan)
        requires
            secs * NANOS_PER_SEC <= u64::MAX,
        ensures
            r.nanos == secs * NANOS_PER_SEC,
    {
        TimeSpan { nanos: secs * NANOS_PER_SEC }
    }

    /// A span of nanoseconds.
    pub fn from_nanos(nanos: u64) -> (r: TimeSpan)
        ensures
            r.nanos == nanos,
    {
        TimeSpan { nanos }
    }

    /// The whole seconds in the span.
    pub fn as_secs(&self) -> (r: u64)
        ensures
            r == self.nanos / NANOS_PER_SEC,
    {
        self.nanos / NANOS_PER_SEC
    }
}

/// The whole seconds from `then` to `now`.
pub open spec fn elapsed_secs(now: TimeSpan, then: TimeSpan) -> int {
    (now.nanos - then.nanos) / (NANOS_PER_SEC as int)
}

/// The statistics of one client.
#[derive(Clone, Copy, Debug, PartialEq, Eq, Structural)]
pub struct ClientStats {
    /// The corpus size of this client.
    pub corpus_size: u64,
    /// The total executions of this client.
    pub executions: u64,
    /// The executions at the start of the current window.
    pub last_window_executions: u64,
    /// The start of the current window.
    pub last_window_time: TimeSpan,
    /// The rate computed when the last window closed.
    pub last_execs_per_sec: u64,
}

/// The executions per second at `now`: 0 before any execution; the cached rate
/// where no whole second has passed in the window; else the window's
/// executions divided by its whole seconds.
pub open spec fn execs_per_sec_spec(c: ClientStats, now: TimeSpan) -> u64 {
    if c.executions == 0 {
        0
    } else if elapsed_secs(now, c.last_window_time) == 0 {
        c.last_execs_per_sec
    } else {
        ((c.executions - c.last_window_executions) / elapsed_secs(now, c.last_window_time)) as u64
    }
}

/// The statistics after a report of `executions` at `now`: the total is
/// replaced, and where more than the window has passed, the rate is recomputed
/// and a new window starts at `now`.
pub open spec fn update_executions_spec(c: ClientStats, executions: u64, now: TimeSpan) -> ClientStats {
    let c1 = ClientStats { executions, ..c };
    if elapsed_secs(now, c.last_window_time) > CLIENT_STATS_TIME_WINDOW_SECS {
        ClientStats {
            last_execs_per_sec: execs_per_sec_spec(c1, now),
            last_window_time: now,
            last_window_executions: executions,
            ..c1
        }
    } else {
        c1
    }
}

impl ClientStats {
    /// Fresh statistics whose window starts at `now`.
    pub fn starting_at(now: TimeSpan) -> (r: ClientStats)
        ensures
            r == (ClientStats {
                corpus_size: 0,
                executions: 0,
                last_window_executions: 0,
                last_window_time: now,
                last_execs_per_sec: 0,
            }),
    {
        ClientStats {
            corpus_size: 0,
            executions: 0,
            last_window_executions: 0,
            last_window_time: now,
            last_execs_per_sec: 0,
        }
    }

    /// Records a new total of executions reported at `cur_time`.
    pub fn update_executions(&mut self, executions: u64, cur_time: TimeSpan)
        requires
            cur_time.nanos >= old(self).last_window_time.nanos,
            executions >= old(self).last_window_executions,
        ensures
            *final(self) == update_executions_spec(*old(self), executions, cur_time),
    {
        self.executions = executions;
        let span = TimeSpan { nanos: cur_time.nanos - self.last_window_time.nanos };
        if span.as_secs() > CLIENT_STATS_TIME_WINDOW_SECS {
            self.last_execs_per_sec = self.execs_per_sec(cur_time);
            self.last_window_time = cur_time;
            self.last_window_executions = executions;
        }
    }

    /// The executions per second at `cur_time`.
    pub fn execs_per_sec(&self, cur_time: TimeSpan) -> (r: u64)
        requires
            self.executions > 0 ==> cur_time.nanos >= self.last_window_time.nanos,
            self.executions > 0 ==> self.executions >= self.last_window_executions,
        ensures
            r == execs_per_sec_spec(*self, cur_time),
    {
        if self.executions == 0 {
            return 0;
        }
        let secs = TimeSpan { nanos: cur_time.nanos - self.last_window_time.nanos }.as_secs();
        if secs == 0 {
            self.last_execs_per_sec
        } else {
            let diff = self.executions - self.last_window_executions;
            diff / secs
        }
    }
}

/// Within one window, the rate asked for twice with a growing total is the
/// cached rate both times, as long as no whole second of the window has passed;
/// once a report comes after the window has closed, the rate is the new
/// executions of the closed window over its whole seconds.
pub proof fn lemma_execs_per_sec_window(c: ClientStats, e1: u64, t1: TimeSpan, e2: u64, t2: TimeSpan, e3: u64, t3: TimeSpan)
    requires
        c.executions > 0,
        c.last_window_time.nanos <= t1.nanos <= t2.nanos,
        elapsed_secs(t2, c.last_window_time) == 0,
        c.last_window_executions <= c.executions <= e1 <= e2,
        t2.nanos <= t3.nanos,
        elapsed_secs(t3, c.last_window_time) > CLIENT_STATS_TIME_WINDOW_SECS,
        e2 <= e3,
    ensures
        ({
            let c1 = update_executions_spec(c, e1, t1);
            let c2 = update_executions_spec(c1, e2, t2);
            let c3 = update_executions_spec(c2, e3, t3);
            &&& execs_per_sec_spec(c1, t1) == c.last_execs_per_sec
            &&& execs_per_sec_spec(c2, t2) == c.last_execs_per_sec
            &&& c3.last_execs_per_sec == (e3 - c.last_window_executions) / elapsed_secs(t3, c.last_window_time)
            &&& c3.last_window_time == t3
            &&& c3.last_window_executions == e3
        }),
{
    assert(elapsed_secs(t1, c.last_window_time) == 0) by (nonlinear_arith)
        requires
            c.last_window_time.nanos <= t1.nanos <= t2.nanos,
            (t2.nanos - c.last_window_time.nanos) / (NANOS_PER_SEC as int) == 0,
    ;
}

/// Within the window (no more than its five seconds since it started), a new
/// report replaces the total and holds the cached rate, the window's start
/// and its baseline.
pub proof fn lemma_update_within_window_holds_rate(c: ClientStats, executions: u64, now: TimeSpan)
    requires
        now.nanos >= c.last_window_time.nanos,
        elapsed_secs(now, c.last_window_time) <= CLIENT_STATS_TIME_WINDOW_SECS,
    ensures
        update_executions_spec(c, executions, now) == (ClientStats { executions, ..c }),
{
}

/// The saturating sum of a sequence of counters.
pub open spec fn sum_capped(s: Seq<u64>) -> u64
    decreases s.len(),
{
    if s.len() == 0 {
        0
    } else {
        let rest = sum_capped(s.drop_last());
        let x = s.last();
        if rest as int + x as int > u64::MAX { u64::MAX } else { (rest + x) as u64 }
    }
}

/// The corpus size of each client.
pub open spec fn corpus_sizes(s: Seq<ClientStats>) -> Seq<u64> {
    s.map_values(|c: ClientStats| c.corpus_size)
}

/// The executions of each client.
pub open spec fn executions_of(s: Seq<ClientStats>) -> Seq<u64> {
    s.map_values(|c: ClientStats| c.executions)
}

/// The rate of each client at `now`.
pub open spec fn rates_at(s: Seq<ClientStats>, now: TimeSpan) -> Seq<u64> {
    s.map_values(|c: ClientStats| execs_per_sec_spec(c, now))
}

/// Whether every client that has executions has its window started no later
/// than `now` and its total at least its window's baseline.
pub open spec fn clients_valid_at(s: Seq<ClientStats>, now: TimeSpan) -> bool {
    forall|i: int| 0 <= i < s.len() && (#[trigger] s[i]).executions > 0 ==> {
        &&& s[i].last_window_time.nanos <= now.nanos
        &&& s[i].executions >= s[i].last_window_executions
    }
}

/// `s` with fresh clients starting at `now` appended until it holds index `id`.
pub open spec fn grown_to(s: Seq<ClientStats>, id: int, now: TimeSpan) -> Seq<ClientStats> {
    if s.len() > id {
        s
    } else {
        s + Seq::new((id + 1 - s.len()) as nat, |_i: int| ClientStats {
            corpus_size: 0,
            executions: 0,
            last_window_executions: 0,
            last_window_time: now,
            last_execs_per_sec: 0,
        })
    }
}

fn sum_field(v: &Vec<ClientStats>, which: u8, now: TimeSpan) -> (r: u64)
    requires
        which == 2 ==> clients_valid_at(v@, now),
    ensures
        which == 0 ==> r == sum_capped(corpus_sizes(v@)),
        which == 1 ==> r == sum_capped(executions_of(v@)),
        which == 2 ==> r == sum_capped(rates_at(v@, now)),
{
    let mut acc: u64 = 0;
    let mut i: usize = 0;
    while i < v.len()
        invariant
            i <= v@.len(),
            which == 2 ==> clients_valid_at(v@, now),
            which == 0 ==> acc == sum_capped(corpus_sizes(v@).subrange(0, i as int)),
            which == 1 ==> acc == sum_capped(executions_of(v@).subrange(0, i as int)),
            which == 2 ==> acc == sum_capped(rates_at(v@, now).subrange(0, i as int)),
        decreases v@.len() - i,
    {
        let c = v[i];
        let x = if which == 0 {
            c.corpus_size
        } else if which == 1 {
            c.executions
        } else if which == 2 {
            assert(v@[i as int].executions > 0 ==> v@[i as int].last_window_time.nanos <= now.nanos);
            c.execs_per_sec(now)
        } else {
            0
        };
        proof {
            assert(corpus_sizes(v@).subrange(0, i + 1).drop_last() =~= corpus_sizes(v@).subrange(0, i as int));
            assert(executions_of(v@).subrange(0, i + 1).drop_last() =~= executions_of(v@).subrange(0, i as int));
            assert(rates_at(v@, now).subrange(0, i + 1).drop_last() =~= rates_at(v@, now).subrange(0, i as int));
        }
        acc = acc.saturating_add(x);
        i = i + 1;
    }
    proof {
        assert(corpus_sizes(v@).subrange(0, v@.len() as int) =~= corpus_sizes(v@));
        assert(executions_of(v@).subrange(0, v@.len() as int) =~= executions_of(v@));
        assert(rates_at(v@, now).subrange(0, v@.len() as int) =~= rates_at(v@, now));
    }
    acc
}

/// A tracker of the statistics of all clients.
pub trait Stats {
    /// The clients' statistics, by client id.
    spec fn clients(&self) -> Seq<ClientStats>;

    /// When this run started.
    spec fn started(&self) -> TimeSpan;

    /// The clients' statistics, by client id.
    fn client_stats(&self) -> (r: &[ClientStats])
        ensures
            r@ == self.clients(),
    ;

    /// The clients' statistics, for change.
    fn client_stats_mut(&mut self) -> (r: &mut Vec<ClientStats>)
        ensures
            r@ == old(self).clients(),
            final(self).clients() == final(r)@,
    ;

    /// When this run started.
    fn start_time(&mut self) -> (r: TimeSpan)
        ensures
            r == old(self).started(),
            final(self).clients() == old(self).clients(),
            final(self).started() == old(self).started(),
    ;

    /// The corpus size over all clients (saturating).
    fn corpus_size(&self) -> (r: u64)
        ensures
            r == sum_capped(corpus_sizes(self.clients())),
    ;

    /// The executions over all clients (saturating).
    fn total_execs(&mut self) -> (r: u64)
        ensures
            r == sum_capped(executions_of(old(self).clients())),
            final(self).clients() == old(self).clients(),
    ;

    /// The executions per second over all clients at `cur_time` (saturating).
    fn execs_per_sec(&mut self, cur_time: TimeSpan) -> (r: u64)
        requires
            clients_valid_at(old(self).clients(), cur_time),
        ensures
            r == sum_capped(rates_at(old(self).clients(), cur_time)),
            final(self).clients() == old(self).clients(),
    ;

    /// The statistics of client `client_id`, adding fresh ones that start at
    /// `cur_time` for every id up to it that has none yet.
    fn client_stats_mut_for(&mut self, client_id: u32, cur_time: TimeSpan) -> (r: &mut ClientStats)
        ensures
            *r == grown_to(old(self).clients(), client_id as int, cur_time)[client_id as int],
            final(self).clients() == grown_to(old(self).clients(), client_id as int, cur_time).update(
                client_id as int,
                *final(r),
            ),
    ;

    /// The status line shown for an event at `cur_time`.
    fn display(&mut self, event_msg: String, cur_time: TimeSpan) -> (r: String)
        requires
            clients_valid_at(old(self).clients(), cur_time),
        ensures
            r@ == status_line(
                event_msg@,
                old(self).clients().len() as u64,
                sum_capped(corpus_sizes(old(self).clients())),
                sum_capped(executions_of(old(self).clients())),
                sum_capped(rates_at(old(self).clients(), cur_time)),
            ),
            final(self).clients() == old(self).clients(),
    ;
}

/// The decimal digits of `n`.
pub open spec fn decimal(n: u64) -> Seq<char>
    decreases n,
{
    let d = seq![(('0' as u8) + (n % 10) as u8) as char];
    if n < 10 {
        d
    } else {
        decimal(n / 10) + d
    }
}

/// Relies on u64's `Display` impl (through `to_string`): the decimal digits
/// of the number, without sign or leading zeros.
#[verifier::external_body]
fn decimal_string(n: u64) -> (r: String)
    ensures
        r@ == decimal(n),
{
    n.to_string()
}

/// The status line: `[msg] clients: C, corpus: S, executions: E, exec/sec: R`.
pub open spec fn status_line(msg: Seq<char>, clients: u64, corpus: u64, execs: u64, rate: u64) -> Seq<char> {
    "["@ + msg + "] clients: "@ + decimal(clients) + ", corpus: "@ + decimal(corpus) + ", executions: "@
        + decimal(execs) + ", exec/sec: "@ + decimal(rate)
}

/// Formats the status line.
pub fn format_status(msg: &str, clients: u64, corpus: u64, execs: u64, rate: u64) -> (r: String)
    ensures
        r@ == status_line(msg@, clients, corpus, execs, rate),
{
    let mut s = String::from_str("[");
    s.append(msg);
    s.append("] clients: ");
    s.append(decimal_string(clients).as_str());
    s.append(", corpus: ");
    s.append(decimal_string(corpus).as_str());
    s.append(", executions: ");
    s.append(decimal_string(execs).as_str());
    s.append(", exec/sec: ");
    s.append(decimal_string(rate).as_str());
    s
}

/// A tracker that keeps the clients' statistics in memory and renders a status
/// line per event.
pub struct SimpleStats {
    start_time: TimeSpan,
    corpus_size: usize,
    client_stats: Vec<ClientStats>,
}

#[verifier::external_type_specification]
#[verifier::external_body]
pub struct ExSystemTime(std::time::SystemTime);

/// Relies on `SystemTime::now`: a reading of the system clock, of which
/// nothing is promised.
#[verifier::external_body]
fn system_now() -> std::time::SystemTime {
    std::time::SystemTime::now()
}

/// Relies on `SystemTime::duration_since` with `UNIX_EPOCH`: the time since
/// the epoch, or `None` for a clock set before it.
#[verifier::external_body]
fn since_epoch(t: &std::time::SystemTime) -> Option<core::time::Duration> {
    t.duration_since(std::time::UNIX_EPOCH).ok()
}

/// Relies on `Duration::as_nanos`: the whole nanoseconds of the span.
#[verifier::external_body]
fn duration_nanos(d: &core::time::Duration) -> u128 {
    d.as_nanos()
}

/// The time now, as nanoseconds since the Unix epoch (0 for a clock before the
/// epoch, `u64::MAX` past the year 2554).
pub fn current_time() -> (r: TimeSpan) {
    let now = system_now();
    match since_epoch(&now) {
        Some(d) => {
            let n = duration_nanos(&d);
            if n > u64::MAX as u128 {
                TimeSpan { nanos: u64::MAX }
            } else {
                TimeSpan { nanos: n as u64 }
            }
        },
        None => TimeSpan { nanos: 0 },
    }
}

impl SimpleStats {
    /// A tracker with no clients that starts now: its start time is what
    /// `current_time` read during the call.
    pub fn new() -> (r: SimpleStats)
        ensures
            r.clients().len() == 0,
    {
        SimpleStats::with_time(current_time())
    }

    /// A tracker with no clients that started at `start_time`.
    pub fn with_time(start_time: TimeSpan) -> (r: SimpleStats)
        ensures
            r.clients().len() == 0,
            r.started() == start_time,
    {
        SimpleStats { start_time, corpus_size: 0, client_stats: Vec::new() }
    }
}

impl Stats for SimpleStats {
    closed spec fn clients(&self) -> Seq<ClientStats> {
        self.client_stats@
    }

    closed spec fn started(&self) -> TimeSpan {
        self.start_time
    }

    fn client_stats(&self) -> (r: &[ClientStats]) {
        self.client_stats.as_slice()
    }

    fn client_stats_mut(&mut self) -> (r: &mut Vec<ClientStats>) {
        &mut self.client_stats
    }

    fn start_time(&mut self) -> (r: TimeSpan) {
        self.start_time
    }

    fn corpus_size(&self) -> (r: u64) {
        sum_field(&self.client_stats, 0, TimeSpan { nanos: 0 })
    }

    fn total_execs(&mut self) -> (r: u64) {
        sum_field(&self.client_stats, 1, TimeSpan { nanos: 0 })
    }

    fn execs_per_sec(&mut self, cur_time: TimeSpan) -> (r: u64) {
        sum_field(&self.client_stats, 2, cur_time)
    }

    fn client_stats_mut_for(&mut self, client_id: u32, cur_time: TimeSpan) -> (r: &mut ClientStats) {
        let id = client_id as usize;
        let ghost start = self.client_stats@;
        while self.client_stats.len() <= id
            invariant
                start.len() <= self.client_stats@.len(),
                self.client_stats@.len() <= id + 1 || self.client_stats@ == start,
                self.client_stats@ == grown_to(start, self.client_stats@.len() - 1, cur_time)
                    || self.client_stats@ == start,
            decreases id + 1 - self.client_stats@.len(),
        {
            self.client_stats.push(ClientStats::starting_at(cur_time));
        }
        assert(self.client_stats@ =~= grown_to(start, id as int, cur_time));
        &mut self.client_stats[id]
    }

    fn display(&mut self, event_msg: String, cur_time: TimeSpan) -> (r: String) {
        let clients = self.client_stats.len() as u64;
        let corpus = self.corpus_size();
        let execs = self.total_execs();
        let rate = self.execs_per_sec(cur_time);
        format_status(event_msg.as_str(), clients, corpus, execs, rate)
    }
}

} // verus!
